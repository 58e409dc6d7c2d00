use tstreamer::backends::Backend;
use tstreamer::element::{ConfigError, Element, Kind, New, NewError, PadKind};
use tstreamer::pipeline::{
    init_outcome, record_stop, Builder, Config, Edge, InitError, Pipeline, RunError, State,
};

struct Mock {
    tag: String,
    inits: u32,
    stops: u32,
}

impl Element for Mock {
    fn init(&mut self) -> Result<(), String> {
        self.inits += 1;
        if self.tag.starts_with("bad-init") {
            Err(format!("{} failed", self.tag))
        } else {
            Ok(())
        }
    }

    fn stop(&mut self) -> Result<(), String> {
        self.stops += 1;
        if self.tag.starts_with("bad-stop") {
            Err(format!("{} failed", self.tag))
        } else {
            Ok(())
        }
    }

    fn backend(&self) -> Backend {
        Backend::Independent
    }

    fn sources(&self) -> Vec<PadKind> {
        vec![PadKind::Message]
    }

    fn sinks(&self) -> Vec<PadKind> {
        vec![PadKind::Message]
    }
}

impl New for Mock {
    fn new(_kind: Kind, _backend: Backend, config: &serde_json::Value) -> Result<Mock, NewError> {
        match config {
            serde_json::Value::String(s) if s != "unparsable" => Ok(Mock { tag: s.clone(), inits: 0, stops: 0 }),
            _ => Err(NewError::Config(ConfigError { message: "not a tag".to_string() })),
        }
    }
}

fn counts<S: State>(p: &Pipeline<Mock, S>) -> Vec<(u32, u32)> {
    (0..p.node_count())
        .map(|i| match p.element(i) {
            Some(m) => (m.inits, m.stops),
            None => (0, 0),
        })
        .collect()
}

fn builder(tags: &[&str]) -> Pipeline<Mock, Builder> {
    let mut p = Pipeline::new();
    for t in tags {
        let (q, _) = p.add_node(Config {
            element: Kind::Prompt,
            backend: Backend::Independent,
            config: serde_json::Value::String(t.to_string()),
        });
        p = q;
    }
    p
}

#[test]
fn init_all_exactly_once() {
    let p = builder(&["a", "b", "c"]);
    let p = match p.connect(0, 1) {
        Ok(p) => p,
        Err(_) => panic!("edge refused"),
    };
    let p = match p.build() {
        Ok(p) => p,
        Err(_) => panic!("build failed"),
    };
    let p = match p.init() {
        Ok(p) => p,
        Err(_) => panic!("init failed"),
    };
    assert_eq!(counts(&p), vec![(1, 0), (1, 0), (1, 0)]);
    for i in 0..3 {
        assert!(p.is_initialized(i));
    }
    assert_eq!(p.edges().len(), 1);
    assert_eq!(p.edges()[0], Edge { from: 0, to: 1 });
    let (p, errors) = p.shutdown();
    assert!(errors.is_empty());
    assert_eq!(counts(&p), vec![(1, 1), (1, 1), (1, 1)]);
    let b = p.reset();
    assert_eq!(b.node_count(), 3);
    assert_eq!(b.edges(), vec![Edge { from: 0, to: 1 }]);
    assert!(b.element(0).is_none());
}

#[test]
fn init_failure_leaves_earlier_nodes_initialized() {
    let p = match builder(&["a", "bad-init", "c"]).build() {
        Ok(p) => p,
        Err(_) => panic!("build failed"),
    };
    let (p, e) = match p.init() {
        Ok(_) => panic!("init should fail"),
        Err(x) => x,
    };
    match e {
        InitError::Element { node, message } => {
            assert_eq!(node, 1);
            assert_eq!(message, "bad-init failed");
        }
    }
    assert_eq!(counts(&p), vec![(1, 0), (1, 0), (0, 0)]);
    assert!(p.is_initialized(0));
    assert!(!p.is_initialized(1));
    assert!(!p.is_initialized(2));
    let (p, errors) = p.shutdown();
    assert!(errors.is_empty());
    assert_eq!(counts(&p), vec![(1, 1), (1, 0), (0, 0)]);
}

#[test]
fn stop_is_best_effort() {
    let p = match builder(&["bad-stop-1", "b", "bad-stop-2"]).build() {
        Ok(p) => p,
        Err(_) => panic!("build failed"),
    };
    let p = match p.init() {
        Ok(p) => p,
        Err(_) => panic!("init failed"),
    };
    let (p, errors) = p.shutdown();
    assert_eq!(counts(&p), vec![(1, 1), (1, 1), (1, 1)]);
    let nodes: Vec<usize> = errors
        .iter()
        .map(|e| match e {
            RunError::Stop { node, .. } => *node,
        })
        .collect();
    assert_eq!(nodes, vec![0, 2]);
}

#[test]
fn init_retry_does_not_repeat() {
    let p = match builder(&["a", "bad-init"]).build() {
        Ok(p) => p,
        Err(_) => panic!("build failed"),
    };
    let (p, _) = match p.init() {
        Ok(_) => panic!("init should fail"),
        Err(x) => x,
    };
    let (p, _) = match p.init() {
        Ok(_) => panic!("init should fail again"),
        Err(x) => x,
    };
    assert_eq!(counts(&p), vec![(1, 0), (2, 0)]);
}

#[test]
fn build_failure_keeps_builder() {
    let p = builder(&["a", "unparsable"]);
    match p.build() {
        Ok(_) => panic!("build should fail"),
        Err((b, e)) => {
            assert_eq!(e.node, 1);
            assert!(e.error.is_config());
            assert_eq!(b.node_count(), 2);
        }
    }
}

#[test]
fn add_node_returns_its_index() {
    let p: Pipeline<Mock, Builder> = Pipeline::new();
    let config = |t: &str| Config {
        element: Kind::Prompt,
        backend: Backend::Independent,
        config: serde_json::Value::String(t.to_string()),
    };
    let (p, a) = p.add_node(config("a"));
    let (p, b) = p.add_node(config("b"));
    assert_eq!((a, b), (0, 1));
    assert_eq!(p.node_count(), 2);
    let p = match p.connect(b, a) {
        Ok(p) => p,
        Err(_) => panic!("edge refused"),
    };
    assert_eq!(p.edges(), vec![Edge { from: 1, to: 0 }]);
}

#[test]
fn edges_need_existing_nodes() {
    let p = builder(&["a"]);
    match p.connect(0, 3) {
        Ok(_) => panic!("edge to a missing node accepted"),
        Err((b, e)) => {
            assert_eq!(e.to, 3);
            assert_eq!(b.edges().len(), 0);
        }
    }
}

#[test]
fn outcomes_become_errors_exactly() {
    assert!(init_outcome(3, Ok(())).is_ok());
    match init_outcome(3, Err("boom".to_string())) {
        Err(InitError::Element { node, message }) => {
            assert_eq!(node, 3);
            assert_eq!(message, "boom");
        }
        Ok(()) => panic!("a failed init was accepted"),
    }
    let mut errors = Vec::new();
    record_stop(0, Ok(()), &mut errors);
    assert!(errors.is_empty());
    record_stop(2, Err("stuck".to_string()), &mut errors);
    assert_eq!(errors.len(), 1);
    match &errors[0] {
        RunError::Stop { node, message } => {
            assert_eq!(*node, 2);
            assert_eq!(message, "stuck");
        }
    }
}
