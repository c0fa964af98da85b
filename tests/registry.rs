use qpmu::registry::collect_loaded;
use qpmu::server::{map_result, serve_activate, serve_complete, serve_query};
use qpmu::wire::{ActionKind, CompletionRequest, QueryRequest};
use qpmu::{
    Action, ActivationStore, DispatchError, ErrorChain, Host, Input, ListItem, Plugin, PluginEvent,
    Step, UiEvent,
};

#[test]
fn failed_loads_are_dropped_in_order() {
    let loaded = collect_loaded(vec![Some("A"), None, Some("C")]);
    assert_eq!(loaded, vec!["A", "C"]);
    let none: Vec<u8> = collect_loaded(vec![None, None]);
    assert!(none.is_empty());
}

fn host(ps: &[&str]) -> Host {
    Host::new(ps.iter().map(|p| p.to_string()).collect())
}

#[test]
fn input_change_starts_search() {
    let mut h = host(&["g", ""]);
    assert_eq!(h.plugin_count(), 2);
    match h.process_ui_event(UiEvent::InputChanged { query: "g hello".to_string() }, 0) {
        Ok(Step::Query { plugin, query }) => {
            assert_eq!(plugin, 0);
            assert_eq!(query, " hello");
            let next = h.on_query_answer(&"g hello".to_string(), plugin, Some(vec![ListItem::new("x".to_string())]));
            assert!(matches!(next, Step::Emit(PluginEvent::SetList(l)) if l.len() == 1));
        }
        other => panic!("unexpected step {:?}", other),
    }
}

#[test]
fn unclaimed_query_moves_on() {
    let h = host(&["g", ""]);
    match h.on_query_answer(&"g hello".to_string(), 0, None) {
        Step::Query { plugin, query } => {
            assert_eq!(plugin, 1);
            assert_eq!(query, "g hello");
        }
        other => panic!("unexpected step {:?}", other),
    }
    assert!(matches!(h.on_query_answer(&"g hello".to_string(), 1, None), Step::Emit(PluginEvent::SetList(l)) if l.is_empty()));
}

#[test]
fn activation_is_recorded_before_plugin_call() {
    let mut h = host(&[""]);
    let item = ListItem::new("Terminal".to_string());
    let step = h.process_ui_event(UiEvent::Activate { plugin: 0, item: item.clone() }, 10);
    assert!(matches!(step, Ok(Step::Activate { plugin: 0, item }) if item.title == "Terminal"));
    assert_eq!(h.frequency(&"Terminal".to_string()), 1);
    let _ = h.process_ui_event(UiEvent::Activate { plugin: 0, item }, 11);
    assert_eq!(h.frequency(&"Terminal".to_string()), 2);
}

#[test]
fn unknown_plugin_is_rejected() {
    let mut h = host(&[""]);
    let item = ListItem::new("x".to_string());
    assert!(matches!(h.process_ui_event(UiEvent::Activate { plugin: 3, item: item.clone() }, 0), Err(DispatchError::UnknownPlugin)));
    assert_eq!(h.frequency(&"x".to_string()), 0);
    assert!(matches!(h.process_ui_event(UiEvent::Complete { plugin: 1, query: "q".to_string(), item }, 0), Err(DispatchError::UnknownPlugin)));
}

#[test]
fn completion_goes_to_its_plugin() {
    let mut h = host(&["a", "b"]);
    let step = h.process_ui_event(UiEvent::Complete { plugin: 1, query: "bq".to_string(), item: ListItem::new("t".to_string()) }, 0);
    assert!(matches!(step, Ok(Step::Complete { plugin: 1, query, item }) if query == "bq" && item.title == "t"));
}

struct Echo;

impl Plugin for Echo {
    fn new(_config: String) -> Result<Self, ErrorChain> {
        Ok(Echo)
    }

    fn query(&self, query: String) -> Result<Vec<ListItem>, ErrorChain> {
        if query == "fail" {
            return Err(ErrorChain::msg("entity not found".to_string()).context("spawning missing".to_string()));
        }
        Ok(vec![ListItem::new(query)])
    }

    fn activate(&self, item: ListItem) -> Result<Vec<Action>, ErrorChain> {
        if item.title == "broken" {
            return Err(ErrorChain::msg("entity not found".to_string()));
        }
        Ok(vec![Action::RunCommand("echo".to_string(), vec![item.title]), Action::Close])
    }
}

#[test]
fn served_query_returns_items_or_chain() {
    let p = Echo::new(String::new()).unwrap();
    let ok = serve_query(&p, QueryRequest { query: "hey".to_string() }).unwrap();
    assert_eq!(ok.items.len(), 1);
    assert_eq!(ok.items[0].title, "hey");
    let err = serve_query(&p, QueryRequest { query: "fail".to_string() }).err().unwrap();
    assert_eq!(err, "spawning missing\nentity not found");
}

#[test]
fn served_activation_records_even_when_plugin_fails() {
    let p = Echo;
    let mut store = ActivationStore::new();
    let resp = serve_activate(&p, &mut store, ListItem::new("hi".to_string()), 5).unwrap();
    assert_eq!(resp.actions.len(), 2);
    assert!(matches!(&resp.actions[0].action, Some(ActionKind::RunCommand(c)) if c.cmd == "echo" && c.args == vec!["hi".to_string()]));
    assert!(matches!(&resp.actions[1].action, Some(ActionKind::Close)));
    let err = serve_activate(&p, &mut store, ListItem::new("broken".to_string()), 6).err().unwrap();
    assert_eq!(err, "entity not found");
    assert_eq!(store.frequency(&"hi".to_string()), 1);
    assert_eq!(store.frequency(&"broken".to_string()), 1);
}

#[test]
fn served_completion_defaults_to_none() {
    let p = Echo;
    let resp = serve_complete(&p, CompletionRequest { query: "q".to_string(), selected: Some(ListItem::new("t".to_string())) }).unwrap();
    assert!(resp.input.is_none());
}

#[test]
fn map_result_flattens_errors() {
    let ok: Result<u8, ErrorChain> = Ok(3);
    assert_eq!(map_result(ok), Ok(3));
    let err: Result<u8, ErrorChain> = Err(ErrorChain { causes: vec!["a".to_string(), "b".to_string()] });
    assert_eq!(map_result(err), Err("a\nb".to_string()));
    let _ = Input::new(String::new());
}
