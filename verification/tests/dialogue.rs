use slick_ricks_luge_lounge::luge::dialogue::{
    DialogueState, RickLines, Scene, SceneId, advance_dialogue,
};

fn two_line_intro_empty_shop() -> RickLines {
    RickLines(vec![
        Scene {
            id: SceneId::Intro,
            lines: vec!["first".to_string(), "second".to_string()],
            completed: false,
        },
        Scene { id: SceneId::Shop, lines: vec![], completed: false },
    ])
}

#[test]
fn dialogue_default_starts_at_intro_line_0_waiting() {
    let d = DialogueState::default();
    assert_eq!(d.current_scene, SceneId::Intro);
    assert_eq!(d.line_index, 0);
    assert!(d.waiting_for_input);
}

#[test]
fn scene_order_is_intro_then_shop_then_none() {
    assert_eq!(SceneId::Intro.next(), Some(SceneId::Shop));
    assert_eq!(SceneId::Shop.next(), None);
}

#[test]
fn canonical_script_has_five_intro_lines_and_empty_shop() {
    let script = RickLines::init();
    assert_eq!(script.0.len(), 2);
    assert_eq!(script.0[0].id, SceneId::Intro);
    assert_eq!(script.0[0].lines.len(), 5);
    assert!(!script.0[0].completed);
    assert_eq!(script.0[1].id, SceneId::Shop);
    assert!(script.0[1].lines.is_empty());
    assert!(script.0[0].lines[1].starts_with("Take a seat."));
}

#[test]
fn get_line_looks_up_by_scene_and_index() {
    let script = two_line_intro_empty_shop();
    assert_eq!(script.get_line(SceneId::Intro, 0), Some("first"));
    assert_eq!(script.get_line(SceneId::Intro, 1), Some("second"));
    assert_eq!(script.get_line(SceneId::Intro, 2), None);
    assert_eq!(script.get_line(SceneId::Shop, 0), None);
}

#[test]
fn five_presses_on_two_line_intro_with_empty_shop() {
    let mut script = two_line_intro_empty_shop();
    let mut state = DialogueState::default();

    // press 1: advances from line 0 to line 1, shows it
    let t1 = advance_dialogue(&mut state, &mut script, true);
    assert_eq!(t1.as_deref(), Some("second"));
    assert_eq!(state.current_scene, SceneId::Intro);
    assert_eq!(state.line_index, 1);
    assert!(state.waiting_for_input);

    // press 2: exhausts the intro, jumps to the empty shop, which
    // immediately stops waiting for input and clears the text —
    // two presses fully exhaust this dialogue, not three
    let t2 = advance_dialogue(&mut state, &mut script, true);
    assert_eq!(t2.as_deref(), Some(""));
    assert_eq!(state.current_scene, SceneId::Shop);
    assert_eq!(state.line_index, 0);
    assert!(!state.waiting_for_input);
    assert!(script.0[0].completed);
    assert!(script.0[1].completed);

    // presses 3 to 5: the sequencer no longer listens
    for _ in 0..3 {
        let t = advance_dialogue(&mut state, &mut script, true);
        assert!(t.is_none());
        assert_eq!(state.current_scene, SceneId::Shop);
        assert!(!state.waiting_for_input);
    }
}

#[test]
fn press_without_waiting_changes_nothing() {
    let mut script = two_line_intro_empty_shop();
    let mut state = DialogueState {
        current_scene: SceneId::Intro,
        line_index: 0,
        waiting_for_input: false,
    };
    let t = advance_dialogue(&mut state, &mut script, true);
    assert!(t.is_none());
    assert_eq!(state.line_index, 0);
}

#[test]
fn no_press_changes_nothing() {
    let mut script = two_line_intro_empty_shop();
    let mut state = DialogueState::default();
    let t = advance_dialogue(&mut state, &mut script, false);
    assert!(t.is_none());
    assert_eq!(state.line_index, 0);
    assert!(state.waiting_for_input);
}

#[test]
fn nonempty_next_scene_keeps_waiting() {
    let mut script = RickLines(vec![
        Scene { id: SceneId::Intro, lines: vec!["only".to_string()], completed: false },
        Scene { id: SceneId::Shop, lines: vec!["welcome".to_string()], completed: false },
    ]);
    let mut state = DialogueState::default();
    let t = advance_dialogue(&mut state, &mut script, true);
    assert_eq!(t.as_deref(), Some("welcome"));
    assert_eq!(state.current_scene, SceneId::Shop);
    assert_eq!(state.line_index, 0);
    assert!(state.waiting_for_input);
    assert!(script.0[0].completed);
    assert!(!script.0[1].completed);
}
