use udp_command_sender::keybindings::{build_key_bindings_vector, initial_context, Context};
use udp_command_sender::pose::SimStatus;
use udp_command_sender::session::{
    editor_destinations, editor_step, local_address, pose_destinations, pose_step, wire_line,
    EditorStep, Input, PoseStep, QUIT_KEY,
};

#[test]
fn quit_key_is_p() {
    assert_eq!(QUIT_KEY, 'p');
}

#[test]
fn quit_key_ends_the_editor_without_a_packet() {
    let bindings = build_key_bindings_vector();
    let mut ctx = Context { current_increment_amount: 7, current_game_object: "ENUOrigin" };
    assert_eq!(editor_step(&bindings, &mut ctx, Input::Char('p')), EditorStep::Quit);
    assert_eq!(ctx.current_increment_amount, 7);
    assert_eq!(ctx.current_game_object, "ENUOrigin");
}

#[test]
fn quit_key_ends_the_pose_program_without_a_frame() {
    let mut pose = SimStatus::initial();
    assert_eq!(pose_step(&mut pose, Input::Char('p')), PoseStep::Quit);
    assert_eq!(pose, SimStatus::initial());
}

#[test]
fn editor_sends_a_line_for_a_command_key() {
    let bindings = build_key_bindings_vector();
    let mut ctx = initial_context();
    let step = editor_step(&bindings, &mut ctx, Input::Char('d'));
    assert_eq!(
        step,
        EditorStep::Redraw {
            packet: Some(
                "{\"type\": \"MOVE_UNITY_OBJECT\", \"objectName\": \"Plane\", \"kind\": \"TRANSLATION\", \"axis\": \"x\", \"amount\": 0.001}\n"
                    .to_string()
            )
        }
    );
    let step = editor_step(&bindings, &mut ctx, Input::Char('x'));
    assert_eq!(
        step,
        EditorStep::Redraw { packet: Some("{\"type\": \"DUMP_HIERARCHY\"}\n".to_string()) }
    );
}

#[test]
fn editor_redraws_without_a_packet_for_state_keys() {
    let bindings = build_key_bindings_vector();
    let mut ctx = initial_context();
    assert_eq!(editor_step(&bindings, &mut ctx, Input::Char('+')), EditorStep::Redraw { packet: None });
    assert_eq!(ctx.current_increment_amount, 2);
    assert_eq!(editor_step(&bindings, &mut ctx, Input::Char('3')), EditorStep::Redraw { packet: None });
    assert_eq!(ctx.current_game_object, "ENUOrigin");
}

#[test]
fn editor_redraws_for_keys_it_does_not_know() {
    let bindings = build_key_bindings_vector();
    let mut ctx = initial_context();
    assert_eq!(editor_step(&bindings, &mut ctx, Input::Char('?')), EditorStep::Redraw { packet: None });
    assert_eq!(editor_step(&bindings, &mut ctx, Input::OtherKey), EditorStep::Redraw { packet: None });
    assert_eq!(ctx.current_increment_amount, 1);
    assert_eq!(ctx.current_game_object, "Plane");
}

#[test]
fn editor_passes_over_what_is_no_key() {
    let bindings = build_key_bindings_vector();
    let mut ctx = initial_context();
    assert_eq!(editor_step(&bindings, &mut ctx, Input::NotAKey), EditorStep::Ignore);
    assert_eq!(ctx.current_increment_amount, 1);
    assert_eq!(ctx.current_game_object, "Plane");
}

#[test]
fn pose_program_sends_after_every_key_but_quit() {
    let mut pose = SimStatus::initial();
    assert_eq!(pose_step(&mut pose, Input::Char('w')), PoseStep::Send);
    assert_eq!(pose.lat, 4_836_196_100 + 50_000);
    assert_eq!(pose_step(&mut pose, Input::Char('1')), PoseStep::Send);
    assert_eq!(pose, SimStatus::initial());
    assert_eq!(pose_step(&mut pose, Input::Char('1')), PoseStep::Send);
    assert_eq!(pose, SimStatus::initial());
    assert_eq!(pose_step(&mut pose, Input::Char('x')), PoseStep::Send);
    assert_eq!(pose, SimStatus::initial());
    assert_eq!(pose_step(&mut pose, Input::OtherKey), PoseStep::Send);
    assert_eq!(pose, SimStatus::initial());
}

#[test]
fn pose_program_passes_over_what_is_no_key() {
    let mut pose = SimStatus::initial();
    assert_eq!(pose_step(&mut pose, Input::NotAKey), PoseStep::Ignore);
    assert_eq!(pose, SimStatus::initial());
}

#[test]
fn wire_line_appends_a_line_feed() {
    assert_eq!(wire_line("abc".to_string()), "abc\n");
    assert_eq!(wire_line(String::new()), "\n");
}

#[test]
fn destinations_are_fixed() {
    assert_eq!(local_address(), "0.0.0.0:0");
    assert_eq!(editor_destinations(), vec!["192.168.0.200:53941", "127.0.0.1:53941"]);
    assert_eq!(
        pose_destinations(),
        vec!["192.168.0.200:53941", "127.0.0.1:53941", "127.0.0.1:53943"]
    );
}
