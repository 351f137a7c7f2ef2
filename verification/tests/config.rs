use mkpub::config::{AwsConfig, AwsS3Config, Config};

fn aws(public_url: Option<&str>, endpoint_url: Option<&str>) -> AwsConfig {
    AwsConfig {
        profile_name: Some("publisher".to_string()),
        endpoint_url: endpoint_url.map(str::to_string),
        s3_config: AwsS3Config {
            bucket_name: "assets".to_string(),
            public_url: public_url.map(str::to_string),
        },
    }
}

#[test]
fn public_url_is_the_base_where_it_is_set() {
    let config = aws(Some("https://cdn.example.com/"), Some("https://s3.example.net/"));
    assert_eq!(config.public_base().map(String::as_str), Some("https://cdn.example.com/"));
    let config = aws(Some("https://cdn.example.com/"), None);
    assert_eq!(config.public_base().map(String::as_str), Some("https://cdn.example.com/"));
}

#[test]
fn endpoint_url_is_the_base_without_a_public_url() {
    let config = aws(None, Some("https://s3.example.net/"));
    assert_eq!(config.public_base().map(String::as_str), Some("https://s3.example.net/"));
}

#[test]
fn no_url_gives_no_base() {
    assert_eq!(aws(None, None).public_base(), None);
}

#[test]
fn configurations_compare_by_their_fields() {
    let one = Config { aws_config: aws(None, Some("https://s3.example.net/")) };
    let same = Config { aws_config: aws(None, Some("https://s3.example.net/")) };
    let other = Config { aws_config: aws(None, None) };
    assert_eq!(one, same);
    assert_ne!(one, other);
}
