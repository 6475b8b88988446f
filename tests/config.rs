use std::collections::HashMap;

use rstdev::config::format::Format;
use rstdev::config::parser::{from_env, from_file, Env, File};
use rstdev::config::types::{ConfigError, SourceFormatter, SourceParser};
use rstdev::config::{Builder, Source, StringValue, TupleValue};

fn pairs(items: &[(&str, &str)]) -> Vec<(String, String)> {
    items
        .iter()
        .map(|(k, v)| (k.to_string(), v.to_string()))
        .collect()
}

#[test]
fn test_fetch() {
    let vars = pairs(&[("TEST_KEY1", "value1"), ("TEST_KEY2", "value2"), ("HOME", "/root")]);

    let parser = Env::new("TEST_".to_string());
    let source = parser.fetch_from(vars);
    assert!(!source.is_err());

    let result = source.unwrap().parse(|input| {
        let mut mapper: HashMap<String, String> = HashMap::new();
        for (key, value) in input.into_iter() {
            if key == "KEY1" {
                mapper.insert(key.clone(), value.clone());
            }

            if key == "KEY2" {
                mapper.insert(key.clone(), value.clone());
            }
        }

        if mapper.len() < 1 {
            return Err(ConfigError::FormatError(
                "no env vars available".to_string(),
            ));
        }

        Ok(mapper)
    });
    assert!(!result.is_err());

    let mapper = result.unwrap();
    assert_eq!(mapper.get("KEY1").unwrap().to_owned(), "value1".to_string());
    assert_eq!(mapper.get("KEY2").unwrap().to_owned(), "value2".to_string())
}

#[test]
fn test_fetch_no_vars() {
    let vars = pairs(&[("KEY1", "value1"), ("KEY2", "value2")]);

    let parser = Env::new("INVALID_".to_string());
    let source = parser.fetch_from(vars);
    assert!(source.is_err());
    assert!(matches!(
        source.as_ref().err().unwrap(),
        ConfigError::FormatError(_)
    ));
    assert_eq!(
        source.err().unwrap(),
        ConfigError::FormatError("no environment variables available".to_string())
    )
}

#[test]
fn env_strips_repeated_prefixes_and_keeps_order() {
    let vars = pairs(&[
        ("APP_B", "2"),
        ("OTHER", "x"),
        ("APP_APP_A", "1"),
        ("XAPP_C", "3"),
    ]);
    let source = from_env("APP_".to_string()).fetch_from(vars).ok().unwrap();
    let got = source.parse(|v| Ok(v)).unwrap();
    assert_eq!(got, pairs(&[("B", "2"), ("A", "1")]));
}

#[test]
fn env_with_empty_prefix_keeps_everything() {
    let vars = pairs(&[("K", "v"), ("L", "w")]);
    let source = Env::new(String::new()).fetch_from(vars.clone()).ok().unwrap();
    assert_eq!(source.parse(|v| Ok(v)).unwrap(), vars);
}

#[test]
fn env_with_no_vars_fails() {
    let r = Env::new("P_".to_string()).fetch_from(Vec::new());
    assert_eq!(
        r.err().unwrap().to_string(),
        "unable to load format: no environment variables available"
    );
}

struct Fixed(String);

impl SourceParser<StringValue, String> for Fixed {
    fn fetch(&self) -> Result<Source<StringValue, String>, ConfigError> {
        Ok(Source::new(StringValue::new(self.0.clone())))
    }
}

struct Broken;

impl SourceParser<StringValue, String> for Broken {
    fn fetch(&self) -> Result<Source<StringValue, String>, ConfigError> {
        Err(ConfigError::ParseError("no such file".to_string()))
    }
}

#[test]
fn builder_fetches_through_its_adapter() {
    let source = Builder::new(Fixed("message = 'hello world'".to_string()))
        .fetch()
        .ok()
        .unwrap();
    let text = source.parse(|s| Ok(s)).unwrap();
    assert_eq!(text, "message = 'hello world'");

    let parsed: Result<usize, ConfigError> =
        source.parse(|s| if s.is_empty() { Err(ConfigError::FormatError("empty".to_string())) } else { Ok(s.len()) });
    assert_eq!(parsed.unwrap(), 23);
}

#[test]
fn builder_passes_on_adapter_errors() {
    let r = Builder::new(Broken).fetch();
    assert_eq!(
        r.err().unwrap().to_string(),
        "unable to parse configuration: no such file"
    );
}

#[test]
fn values_hand_out_copies() {
    let s = StringValue::new("a: 1".to_string());
    assert_eq!(s.get_source_value(), "a: 1");
    let t = TupleValue::new(pairs(&[("a", "1")]));
    assert_eq!(t.get_source_value(), pairs(&[("a", "1")]));
}

#[test]
fn file_and_format_hold_their_input() {
    let f: File = from_file("/etc/app.yaml".to_string());
    assert_eq!(f.path(), "/etc/app.yaml");
    assert_eq!(File::new("x".to_string()).path(), "x");
    assert_eq!(Format::new("k = 1".to_string()).text(), "k = 1");
}
