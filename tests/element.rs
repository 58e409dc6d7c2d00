use tstreamer::backends::Backend;
use tstreamer::element::{ConfigError, Element, Kind, NewError, Owned, PadKind, UnavailableError};
use tstreamer::info::Info;
use tstreamer::prompt::Prompt;

#[test]
fn prompt_needs_a_provider_backend() {
    match Kind::Prompt.new(Backend::Independent, Ok(Prompt::new())) {
        Err(NewError::Unavailable(u)) => {
            assert_eq!(u, UnavailableError { kind: Kind::Prompt, backend: Backend::Independent })
        }
        _ => panic!("expected unavailable"),
    }
}

#[test]
fn inference_is_unavailable() {
    let r = Kind::Inference.new(Backend::Anthropic, Ok(Prompt::new()));
    assert!(matches!(r, Err(NewError::Unavailable(UnavailableError { kind: Kind::Inference, .. }))));
}

#[test]
fn bad_config_is_config_error() {
    let r = Kind::Prompt.new(Backend::Anthropic, Err(ConfigError { message: "bad".to_string() }));
    match r {
        Err(e) => {
            assert!(e.is_config());
            assert!(!e.is_unavailable());
        }
        Ok(_) => panic!("expected a config error"),
    }
}

#[test]
fn prompt_element_is_built() {
    match Kind::Prompt.new(Backend::Anthropic, Ok(Prompt::new())) {
        Ok(Owned::Prompt(mut e)) => {
            assert_eq!(e.backend(), Backend::Anthropic);
            assert_eq!(e.sources(), vec![PadKind::Prompt]);
            assert_eq!(e.sinks(), vec![PadKind::Message, PadKind::Prompt]);
            assert_eq!(e.name(), "Prompt Source");
            assert!(e.init().is_ok());
            assert!(e.stop().is_ok());
        }
        _ => panic!("expected a prompt element"),
    }
    assert!(Backend::Anthropic.is_anthropic());
    assert!(Backend::Independent.is_independent());
}
