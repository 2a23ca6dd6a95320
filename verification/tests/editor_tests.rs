use rim::editor::Editor;
use rim::editorcommand::{Direction, EditorCommand};
use rim::geometry::Size;
use rim::view::View;

#[test]
fn quit_raises_termination_flag() {
    let view = View::new(Size { height: 10, width: 40 });
    let mut editor = Editor::new(view);
    assert!(!editor.should_quit);
    editor.evaluate_event(Ok(EditorCommand::Quit));
    assert!(editor.should_quit);
}

#[test]
fn commands_route_to_the_view() {
    let view = View::new(Size { height: 10, width: 40 });
    let mut editor = Editor::new(view);
    editor.evaluate_event(Ok(EditorCommand::Move(Direction::Down)));
    assert!(!editor.should_quit);
    assert_eq!(editor.view.location.y, 0);
    // An empty document clamps the row back to the line count (zero), and
    // the move is still logged.
    let plan = editor.view.render();
    assert_eq!(plan[0].text.as_str(), "[MOVE] Down");
}

#[test]
fn unsupported_event_is_logged() {
    let view = View::new(Size { height: 10, width: 40 });
    let mut editor = Editor::new(view);
    editor.evaluate_event(Err("Press <p>".to_string()));
    assert!(!editor.should_quit);
    let plan = editor.view.render();
    assert_eq!(
        plan[0].text.as_str(),
        "[NSUP] Command Press <p> Not Supported"
    );
}
