//! Scripting support
//!
//! A metadata program is a Rhai script. It sees two variables: `object`, the
//! draft it fills in, and `path`, the path of the file as the caller gave
//! it, which it cannot change.

use rhai::{Dynamic, Engine, EvalAltResult, ImmutableString, Module, ParseError, Scope, AST};
use vstd::prelude::*;

use crate::error::Error;

verus! {

/// The default Rhai program to use when the user hasn't provided their own.
pub const DEFAULT_RHAI_PROGRAM: &'static str =
    "object.key = path.file_name;\nobject.content_type = mime::guess_from_path(path);\n";

/// The media type that stands for arbitrary bytes.
pub const OCTET_STREAM: &'static str = "application/octet-stream";

/// `rhai::Engine`: the types and functions that a program runs against.
#[verifier::external_type_specification]
#[verifier::external_body]
pub struct ExEngine(Engine);

/// `rhai::AST`: a compiled program.
#[verifier::external_type_specification]
#[verifier::external_body]
pub struct ExAst(AST);

/// `rhai::Scope`: the variables that a program runs with.
#[verifier::external_type_specification]
#[verifier::external_body]
pub struct ExScope<'a>(Scope<'a>);

/// `rhai::ParseError`: why Rhai rejected the text of a program.
#[verifier::external_type_specification]
#[verifier::external_body]
pub struct ExParseError(ParseError);

/// `rhai::EvalAltResult`: why Rhai stopped running a program.
#[verifier::external_type_specification]
#[verifier::external_body]
pub struct ExEvalAltResult(EvalAltResult);

/// The metadata of one object as a program leaves it: every field is
/// optional until the publisher applies its defaults.
#[derive(Debug, Clone)]
pub struct ScriptablePutObject {
    pub content_type: Option<String>,
    pub content_disposition: Option<String>,
    pub key: Option<String>,
}

/// The mathematical content of a [`ScriptablePutObject`].
pub struct Draft {
    pub content_type: Option<Seq<char>>,
    pub content_disposition: Option<Seq<char>>,
    pub key: Option<Seq<char>>,
}

impl View for ScriptablePutObject {
    type V = Draft;

    open spec fn view(&self) -> Draft {
        Draft {
            content_type: self.content_type.deep_view(),
            content_disposition: self.content_disposition.deep_view(),
            key: self.key.deep_view(),
        }
    }
}

impl Draft {
    /// The draft in which no field is set.
    pub open spec fn unset() -> Draft {
        Draft { content_type: None, content_disposition: None, key: None }
    }
}

impl Default for ScriptablePutObject {
    /// The draft in which no field is set.
    fn default() -> (object: Self)
        ensures
            object@ == Draft::unset(),
    {
        ScriptablePutObject { content_type: None, content_disposition: None, key: None }
    }
}

impl ScriptablePutObject {
    /// Sets the media type of the object.
    pub fn set_content_type(&mut self, value: String)
        ensures
            final(self)@ == (Draft { content_type: Some(value@), ..old(self)@ }),
    {
        self.content_type = Some(value);
    }

    /// Sets how a browser is asked to present the object.
    pub fn set_content_disposition(&mut self, value: String)
        ensures
            final(self)@ == (Draft { content_disposition: Some(value@), ..old(self)@ }),
    {
        self.content_disposition = Some(value);
    }

    /// Returns the key of the object, or the empty string while none is
    /// set. The object stays as it is.
    pub fn get_key(&mut self) -> (key: String)
        ensures
            *final(self) == *old(self),
            key@ == match old(self)@.key {
                Some(text) => text,
                None => Seq::<char>::empty(),
            },
    {
        match &self.key {
            Some(text) => text.clone(),
            None => String::new(),
        }
    }

    /// Sets the key under which the object is stored.
    pub fn set_key(&mut self, value: String)
        ensures
            final(self)@ == (Draft { key: Some(value@), ..old(self)@ }),
    {
        self.key = Some(value);
    }
}

/// The final component of `path` as `std::path::Path::file_name` finds it,
/// or `None` where the path has none.
pub uninterp spec fn path_file_name(path: Seq<char>) -> Option<Seq<char>>;

/// The first media type that `mime_guess` lists for the extension of `path`,
/// without parameters, or `None` where it lists none.
pub uninterp spec fn guessed_media_type(path: Seq<char>) -> Option<Seq<char>>;

/// Calls `std::path::Path::file_name` on `path` read as a path. The
/// contract claims that the answer depends on the text of the path alone;
/// what the answer is stays unstated.
#[verifier::external_body]
fn final_component(path: &str) -> (name: Option<String>)
    ensures
        name.deep_view() == path_file_name(path@),
{
    std::path::Path::new(path).file_name().and_then(|name| name.to_str()).map(str::to_owned)
}

/// Returns the file name for the given `path`: its final component, or
/// `None` where it has none, as a path that ends in `..` does.
pub fn get_file_name(path: &str) -> (name: Option<String>)
    ensures
        name.deep_view() == path_file_name(path@),
{
    final_component(path)
}

/// Calls `mime_guess::from_path` and `MimeGuess::first`, and takes the
/// text of the guess without its parameters (`Mime::essence_str`). The
/// contract claims that the guess depends on the text of the path alone;
/// which media type it is stays unstated.
#[verifier::external_body]
fn first_guess(path: &str) -> (guess: Option<String>)
    ensures
        guess.deep_view() == guessed_media_type(path@),
{
    mime_guess::from_path(path).first().map(|mime| mime.essence_str().to_owned())
}

/// What [`guess_from_path`] answers for `path`.
pub open spec fn media_type_of(path: Seq<char>) -> Seq<char> {
    match guessed_media_type(path) {
        Some(media_type) => media_type,
        None => OCTET_STREAM@,
    }
}

/// Guesses and returns the mime type as a string based on the given `path`,
/// falling back to the type of arbitrary bytes where no guess is known.
pub fn guess_from_path(path: &str) -> (media_type: String)
    ensures
        media_type@ == media_type_of(path@),
{
    match first_guess(path) {
        Some(media_type) => media_type,
        None => OCTET_STREAM.to_owned(),
    }
}

/// The display names of the custom types in the engine's own first
/// module: the one that registrations with the engine write to, apart
/// from the packages that the engine was made with.
pub uninterp spec fn engine_types(engine: Engine) -> Set<Seq<char>>;

/// The names of the functions in the engine's own first module, apart from
/// packages, as Rhai keeps them: the getter of a property under `get$` and
/// the name of the property, its setter under `set$` and that name.
pub uninterp spec fn engine_functions(engine: Engine) -> Set<Seq<char>>;

/// The static modules of `engine`, each with the names of its functions.
pub uninterp spec fn engine_modules(engine: Engine) -> Map<Seq<char>, Set<Seq<char>>>;

/// What an engine offers to programs on top of the packages that it was
/// made with.
pub struct Registry {
    pub types: Set<Seq<char>>,
    pub functions: Set<Seq<char>>,
    pub modules: Map<Seq<char>, Set<Seq<char>>>,
}

impl Registry {
    /// What `engine` offers on top of its packages.
    pub open spec fn of(engine: Engine) -> Registry {
        Registry {
            types: engine_types(engine),
            functions: engine_functions(engine),
            modules: engine_modules(engine),
        }
    }

    /// The registry that offers nothing.
    pub open spec fn empty() -> Registry {
        Registry { types: Set::empty(), functions: Set::empty(), modules: Map::empty() }
    }

    /// This registry and the custom type of the given display name.
    pub open spec fn with_type(self, name: Seq<char>) -> Registry {
        Registry { types: self.types.insert(name), ..self }
    }

    /// This registry and the function of the given name.
    pub open spec fn with_function(self, name: Seq<char>) -> Registry {
        Registry { functions: self.functions.insert(name), ..self }
    }

    /// This registry and the function that reads the given property.
    pub open spec fn with_getter(self, property: Seq<char>) -> Registry {
        self.with_function("get$"@ + property)
    }

    /// This registry and the function that writes the given property.
    pub open spec fn with_setter(self, property: Seq<char>) -> Registry {
        self.with_function("set$"@ + property)
    }

    /// This registry and the static module of the given name, which holds
    /// the functions of the given names.
    pub open spec fn with_module(self, name: Seq<char>, functions: Set<Seq<char>>) -> Registry {
        Registry { modules: self.modules.insert(name, functions), ..self }
    }

    /// What the engine of [`build_engine`] offers: the draft under the type
    /// name `Object`, with its key to read and to write, its content type
    /// and its content disposition to write, and its two printed forms;
    /// the file name of a path; the module `mime` with its guess.
    pub open spec fn for_programs() -> Registry {
        Registry::empty().with_type("Object"@).with_getter("key"@).with_setter("key"@).with_setter(
            "content_type"@,
        ).with_setter("content_disposition"@).with_function("to_string"@).with_function(
            "to_debug"@,
        ).with_getter("file_name"@).with_module("mime"@, Set::empty().insert("guess_from_path"@))
    }
}

/// `rhai::Engine::new`: an engine with the standard packages of the
/// language. The contract claims that its own first module, apart from
/// those packages, holds no custom type and no function yet, and that it
/// has no static module.
pub assume_specification[ Engine::new ]() -> (engine: Engine)
    ensures
        engine_types(engine).is_empty(),
        engine_functions(engine).is_empty(),
        engine_modules(engine).is_empty(),
;

/// Calls `Engine::register_type_with_name`, so that programs see a draft
/// under the type name `Object`. Rhai keeps one display name for each
/// Rust type and replaces it on a second registration, so the contract
/// speaks of an engine without custom types only: there it claims that
/// this adds the name to the custom types and changes nothing else.
#[verifier::external_body]
fn register_object_type(engine: &mut Engine)
    requires
        engine_types(*old(engine)).is_empty(),
    ensures
        Registry::of(*final(engine)) == Registry::of(*old(engine)).with_type("Object"@),
{
    engine.register_type_with_name::<ScriptablePutObject>("Object");
}

/// Calls `Engine::register_get_set` for the property `key`. The contract
/// claims that this adds the getter and the setter of the property to the
/// functions and changes nothing else.
#[verifier::external_body]
fn register_key(engine: &mut Engine)
    ensures
        Registry::of(*final(engine)) == Registry::of(*old(engine)).with_getter("key"@).with_setter(
            "key"@,
        ),
{
    engine.register_get_set("key", ScriptablePutObject::get_key, ScriptablePutObject::set_key);
}

/// Calls `Engine::register_set` for the two write-only properties. The
/// contract claims that this adds their setters to the functions and
/// changes nothing else.
#[verifier::external_body]
fn register_setters(engine: &mut Engine)
    ensures
        Registry::of(*final(engine)) == Registry::of(*old(engine)).with_setter(
            "content_type"@,
        ).with_setter("content_disposition"@),
{
    engine.register_set("content_type", ScriptablePutObject::set_content_type);
    engine.register_set("content_disposition", ScriptablePutObject::set_content_disposition);
}

/// Calls `Engine::register_fn` for the two functions with which Rhai prints
/// a value, so that a program can print its draft. The contract claims
/// that this adds the two to the functions and changes nothing else.
#[verifier::external_body]
fn register_printing(engine: &mut Engine)
    ensures
        Registry::of(*final(engine)) == Registry::of(*old(engine)).with_function(
            "to_string"@,
        ).with_function("to_debug"@),
{
    engine.register_fn("to_string", |v: &mut ScriptablePutObject| format!("Object({:?})", v.key));
    engine.register_fn("to_debug", |v: &mut ScriptablePutObject| format!("Object({v:?})"));
}

/// Calls `Engine::register_get` for the property `file_name` of a path. A
/// path without a final component has the unit value for its file name.
/// The contract claims that this adds the getter of the property to the
/// functions and changes nothing else.
#[verifier::external_body]
fn register_file_name(engine: &mut Engine)
    ensures
        Registry::of(*final(engine)) == Registry::of(*old(engine)).with_getter("file_name"@),
{
    engine.register_get("file_name", |path: &mut ImmutableString| {
        get_file_name(path.as_str()).map_or(Dynamic::UNIT, Dynamic::from)
    });
}

/// Builds a module that holds `guess_from_path` with `Module::set_native_fn`
/// and calls `Engine::register_static_module` to register it as `mime`.
/// The contract claims that this adds the module with its one function to
/// the static modules and changes nothing else.
#[verifier::external_body]
fn register_mime_module(engine: &mut Engine)
    ensures
        Registry::of(*final(engine)) == Registry::of(*old(engine)).with_module(
            "mime"@,
            Set::empty().insert("guess_from_path"@),
        ),
{
    let mut module = Module::new();
    module.set_native_fn("guess_from_path", |path: ImmutableString| {
        Ok::<String, Box<EvalAltResult>>(guess_from_path(path.as_str()))
    });
    engine.register_static_module("mime", module.into());
}

/// Constructs the engine that metadata programs run against: the standard
/// language, the draft object with its properties, the `file_name` of a
/// path and the module `mime`.
pub fn build_engine() -> (engine: Engine)
    ensures
        Registry::of(engine) == Registry::for_programs(),
{
    let mut engine = Engine::new();
    assert(Registry::of(engine) == Registry::empty()) by {
        assert(engine_types(engine) =~= Set::empty());
        assert(engine_functions(engine) =~= Set::empty());
        assert(engine_modules(engine) =~= Map::empty());
    }
    register_object_type(&mut engine);
    register_key(&mut engine);
    register_setters(&mut engine);
    register_printing(&mut engine);
    register_file_name(&mut engine);
    register_mime_module(&mut engine);
    engine
}

/// The text to compile: the user's program, or the default one where the
/// user supplied none.
pub fn program_source<'a>(user: Option<&'a str>) -> (source: &'a str)
    ensures
        source@ == match user {
            Some(text) => text@,
            None => DEFAULT_RHAI_PROGRAM@,
        },
{
    match user {
        Some(text) => text,
        None => DEFAULT_RHAI_PROGRAM,
    }
}

/// The program that `rhai::Engine::compile` makes of the text `source`
/// with `engine`, or `None` where it rejects the text.
pub uninterp spec fn parsed_program(engine: Engine, source: Seq<char>) -> Option<AST>;

/// Calls `Engine::compile`. The contract claims that what Rhai makes of a
/// text depends on the engine and the text alone; which texts are
/// programs stays unstated.
#[verifier::external_body]
fn compile_text(engine: &Engine, source: &str) -> (program: Result<AST, ParseError>)
    ensures
        match program {
            Ok(program) => parsed_program(*engine, source@) == Some(program),
            Err(_) => parsed_program(*engine, source@) is None,
        },
{
    engine.compile(source)
}

/// What [`compile`] returns, given what Rhai made of the text.
pub fn compiled(parsed: Result<AST, ParseError>) -> (program: Result<AST, Error>)
    ensures
        program == match parsed {
            Ok(program) => Ok::<AST, Error>(program),
            Err(cause) => Err(Error::ScriptCompileError(cause)),
        },
{
    match parsed {
        Ok(program) => Ok(program),
        Err(cause) => Err(Error::ScriptCompileError(cause)),
    }
}

/// Compiles the text of a metadata program, once for all the files of a
/// run: the program that Rhai makes of the text with this engine. Text
/// that Rhai rejects gives [`Error::ScriptCompileError`].
pub fn compile(engine: &Engine, source: &str) -> (program: Result<AST, Error>)
    ensures
        match parsed_program(*engine, source@) {
            Some(expected) => program == Ok::<AST, Error>(expected),
            None => program is Err && program->Err_0 is ScriptCompileError,
        },
{
    compiled(compile_text(engine, source))
}

/// The scope of one run of a program.
pub type RunScope = Scope<'static>;

/// The variables of `scope` that hold a draft, each with the draft it
/// holds. Where a name was pushed more than once, its last entry counts.
pub uninterp spec fn scope_objects(scope: RunScope) -> Map<Seq<char>, Draft>;

/// The variables of `scope` that hold a string, each with its text. Where
/// a name was pushed more than once, its last entry counts.
pub uninterp spec fn scope_texts(scope: RunScope) -> Map<Seq<char>, Seq<char>>;

/// The names of the variables of `scope` that a program can read but not
/// assign to.
pub uninterp spec fn scope_constants(scope: RunScope) -> Set<Seq<char>>;

/// Whether the variable `object` of `scope` holds `object` and no other
/// variable of it holds a draft.
pub open spec fn holds_draft(scope: RunScope, object: Draft) -> bool {
    scope_objects(scope) == Map::<Seq<char>, Draft>::empty().insert("object"@, object)
}

/// The one variable of the given name that holds the given text.
pub open spec fn only_text(name: Seq<char>, text: Seq<char>) -> Map<Seq<char>, Seq<char>> {
    Map::<Seq<char>, Seq<char>>::empty().insert(name, text)
}

/// The one variable of the given name.
pub open spec fn only_name(name: Seq<char>) -> Set<Seq<char>> {
    Set::<Seq<char>>::empty().insert(name)
}

/// Makes a scope with `Scope::new` and fills it with the two variables of
/// a program: `Scope::push` for `object`, which the program changes, and
/// `Scope::push_constant` for `path`, which it only reads. The contract
/// claims that the new scope holds what was pushed and nothing else: the
/// draft under `object`, the text of the path under `path`, and `path` as
/// its one constant.
#[verifier::external_body]
fn scope_with(object: ScriptablePutObject, path: &str) -> (scope: RunScope)
    ensures
        holds_draft(scope, object@),
        scope_texts(scope) == only_text("path"@, path@),
        scope_constants(scope) == only_name("path"@),
{
    let mut scope = Scope::new();
    scope.push("object", object).push_constant("path", path.to_owned());
    scope
}

/// Calls `Engine::run_ast_with_scope`. What a program does to its scope and
/// whether it ends is for the program to say, so the contract claims
/// nothing.
#[verifier::external_body]
fn run_in_scope(engine: &Engine, scope: &mut RunScope, program: &AST) -> (outcome: Result<
    (),
    Box<EvalAltResult>,
>) {
    engine.run_ast_with_scope(scope, program)
}

/// Calls `Scope::get_value` for the variable `object`. The contract claims
/// that it finds the draft that the variable holds, and nothing where the
/// variable holds no draft.
#[verifier::external_body]
fn object_in(scope: &RunScope) -> (object: Option<ScriptablePutObject>)
    ensures
        match object {
            Some(object) => scope_objects(*scope).contains_pair("object"@, object@),
            None => !scope_objects(*scope).contains_key("object"@),
        },
{
    scope.get_value::<ScriptablePutObject>("object")
}

/// Makes the scope that a run for the file at `path` starts with: the
/// variable `object` holds a draft in which nothing is set, whatever ran
/// before, and the constant `path` holds the path of the file. No run
/// starts with what another one left.
pub fn fresh_scope(path: &str) -> (scope: RunScope)
    ensures
        holds_draft(scope, Draft::unset()),
        scope_texts(scope) == only_text("path"@, path@),
        scope_constants(scope) == only_name("path"@),
{
    scope_with(ScriptablePutObject::default(), path)
}

/// What [`run`] returns, given how the program ended and what its `object`
/// variable held at that moment.
pub fn read_back(ended: Result<(), Box<EvalAltResult>>, object: Option<ScriptablePutObject>) -> (draft:
    Result<ScriptablePutObject, Error>)
    ensures
        draft == match ended {
            Err(cause) => Err::<ScriptablePutObject, Error>(Error::ScriptRuntimeError(cause)),
            Ok(()) => match object {
                Some(object) => Ok(object),
                None => Err(Error::MissingObject),
            },
        },
{
    match ended {
        Err(cause) => Err(Error::ScriptRuntimeError(cause)),
        Ok(()) => match object {
            Some(object) => Ok(object),
            None => Err(Error::MissingObject),
        },
    }
}

/// Runs `program` for the file at `path`: the program starts from a draft
/// in which nothing is set, and the draft it leaves behind is returned.
pub fn run(engine: &Engine, program: &AST, path: &str) -> (draft: Result<ScriptablePutObject, Error>)
    ensures
        draft is Err ==> draft->Err_0 is ScriptRuntimeError || draft->Err_0 is MissingObject,
{
    let mut scope = fresh_scope(path);
    let ended = run_in_scope(engine, &mut scope, program);
    let object = object_in(&scope);
    read_back(ended, object)
}

} // verus!
