use qpmu::item::SELECTION_MAX;
use qpmu::{Action, Input, ListItem, SelectionRange};
use qpmu::wire::ActionKind;

#[test]
fn input_new_places_cursor_at_end() {
    let input = Input::new("x".to_string());
    assert_eq!(input.query, "x");
    assert_eq!(input.range_lb, 65535);
    assert_eq!(input.range_ub, 65535);
    assert_eq!(input.range_lb, input.range_ub);
}

#[test]
fn selection_all_spans_whole_query() {
    let all = SelectionRange::all();
    assert_eq!(all.lower_bound, 0);
    assert_eq!(all.upper_bound, u16::MAX);
    assert_eq!(SELECTION_MAX, u16::MAX);
}

#[test]
fn selection_start_end_at() {
    assert_eq!(SelectionRange::start(), SelectionRange { lower_bound: 0, upper_bound: 0 });
    assert_eq!(SelectionRange::end(), SelectionRange { lower_bound: 65535, upper_bound: 65535 });
    assert_eq!(SelectionRange::at(7), SelectionRange { lower_bound: 7, upper_bound: 7 });
}

#[test]
fn input_select_keeps_both_bounds() {
    let input = Input::new("hello".to_string())
        .select(SelectionRange { lower_bound: 2, upper_bound: 5 });
    assert_eq!(input.query, "hello");
    assert_eq!(input.range_lb, 2);
    assert_eq!(input.range_ub, 5);
}

#[test]
fn list_item_builders() {
    let item = ListItem::new("Firefox".to_string())
        .with_description("web browser".to_string())
        .with_metadata("firefox.desktop".to_string())
        .with_icon(Some("firefox".to_string()));
    assert_eq!(item.title, "Firefox");
    assert_eq!(item.description, "web browser");
    assert_eq!(item.metadata, "firefox.desktop");
    assert_eq!(item.icon.as_deref(), Some("firefox"));
    let plain = ListItem::new("t".to_string());
    assert!(plain.icon.is_none());
    assert!(plain.description.is_empty());
    assert!(plain.metadata.is_empty());
}

#[test]
fn run_command_encodes_and_decodes() {
    let action = Action::RunCommand("echo".to_string(), vec!["hi".to_string()]);
    let message = action.map_to_proto();
    match &message.action {
        Some(ActionKind::RunCommand(c)) => {
            assert_eq!(c.cmd, "echo");
            assert_eq!(c.args, vec!["hi".to_string()]);
        }
        other => panic!("unexpected message {:?}", other),
    }
    match message.into_action() {
        Some(Action::RunCommand(cmd, args)) => {
            assert_eq!(cmd, "echo");
            assert_eq!(args, vec!["hi".to_string()]);
        }
        other => panic!("unexpected action {:?}", other),
    }
}

#[test]
fn activation_response_keeps_order() {
    let actions = vec![
        Action::Copy("a".to_string()),
        Action::Close,
        Action::RunShell("ls".to_string()),
    ];
    let resp = qpmu::wire::activation_response(actions);
    assert_eq!(resp.actions.len(), 3);
    assert!(matches!(&resp.actions[0].action, Some(ActionKind::Copy(s)) if s == "a"));
    assert!(matches!(&resp.actions[1].action, Some(ActionKind::Close)));
    assert!(matches!(&resp.actions[2].action, Some(ActionKind::RunShell(s)) if s == "ls"));
    let back = qpmu::wire::response_actions(resp).unwrap();
    assert_eq!(back.len(), 3);
    assert!(matches!(&back[2], Action::RunShell(s) if s == "ls"));
}

#[test]
fn response_without_action_is_rejected() {
    let resp = qpmu::wire::ActivationResponse {
        actions: vec![
            Action::Close.map_to_proto(),
            qpmu::wire::ActionMessage { action: None },
        ],
    };
    assert!(qpmu::wire::response_actions(resp).is_none());
}
