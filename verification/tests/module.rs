use aa_module::command::{Command, EngineCall, FloatBits};
use aa_module::module::{
    aa_module_compute_one_one, aa_module_compute_one_two_non, aa_module_compute_two_two_non,
    aa_module_compute_zero_one, aa_module_compute_zero_two_non, aa_module_get_number_inputs,
    aa_module_get_number_outputs, aa_module_handle_note_off, aa_module_handle_note_on,
    get_gui_description, handle_commands, set_param_float, AAModule,
};

fn velocity(value: f32) -> FloatBits {
    FloatBits(value.to_bits())
}

#[test]
fn block_with_nothing_pending_only_computes() {
    let mut module = AAModule::new(None);
    assert_eq!(
        aa_module_compute_zero_one(&mut module, 64),
        vec![EngineCall::ComputeZeroOne(64)]
    );
}

#[test]
fn each_shape_has_its_computation() {
    let mut module = AAModule::new(None);
    assert_eq!(
        aa_module_compute_zero_one(&mut module, 1),
        vec![EngineCall::ComputeZeroOne(1)]
    );
    assert_eq!(
        aa_module_compute_one_one(&mut module, 2),
        vec![EngineCall::ComputeOneOne(2)]
    );
    assert_eq!(
        aa_module_compute_one_two_non(&mut module, 3),
        vec![EngineCall::ComputeOneTwoNon(3)]
    );
    assert_eq!(
        aa_module_compute_two_two_non(&mut module, 4),
        vec![EngineCall::ComputeTwoTwoNon(4)]
    );
    assert_eq!(
        aa_module_compute_zero_two_non(&mut module, 5),
        vec![EngineCall::ComputeZeroTwoNon(5)]
    );
}

#[test]
fn frame_count_is_carried_exactly() {
    let mut module = AAModule::new(None);
    assert_eq!(
        aa_module_compute_two_two_non(&mut module, 0),
        vec![EngineCall::ComputeTwoTwoNon(0)]
    );
    assert_eq!(
        aa_module_compute_one_one(&mut module, usize::MAX),
        vec![EngineCall::ComputeOneOne(usize::MAX)]
    );
}

#[test]
fn param_reaches_the_engine_before_the_block_computes() {
    let mut module = AAModule::new(None);
    set_param_float(&mut module, 2, 5, velocity(0.5));
    assert_eq!(
        aa_module_compute_one_one(&mut module, 128),
        vec![
            EngineCall::SetParamFloat(2, 5, velocity(0.5)),
            EngineCall::ComputeOneOne(128),
        ]
    );
}

#[test]
fn param_after_a_block_waits_for_the_next_block() {
    let mut module = AAModule::new(None);
    let first = aa_module_compute_zero_two_non(&mut module, 32);
    set_param_float(&mut module, 0, 1, velocity(0.25));
    let second = aa_module_compute_zero_two_non(&mut module, 32);
    let third = aa_module_compute_zero_two_non(&mut module, 32);
    assert_eq!(first, vec![EngineCall::ComputeZeroTwoNon(32)]);
    assert_eq!(
        second,
        vec![
            EngineCall::SetParamFloat(0, 1, velocity(0.25)),
            EngineCall::ComputeZeroTwoNon(32),
        ]
    );
    assert_eq!(third, vec![EngineCall::ComputeZeroTwoNon(32)]);
}

#[test]
fn note_on_then_note_off_arrive_in_order_in_one_block() {
    let mut module = AAModule::new(None);
    aa_module_handle_note_on(&mut module, 60, velocity(0.8));
    aa_module_handle_note_off(&mut module, 60, velocity(0.0));
    assert_eq!(
        aa_module_compute_zero_one(&mut module, 256),
        vec![
            EngineCall::HandleNoteOn(60, velocity(0.8)),
            EngineCall::HandleNoteOff(60, velocity(0.0)),
            EngineCall::ComputeZeroOne(256),
        ]
    );
}

#[test]
fn mixed_commands_keep_their_order() {
    let mut module = AAModule::new(None);
    aa_module_handle_note_on(&mut module, 40, velocity(1.0));
    set_param_float(&mut module, 9, 8, velocity(0.125));
    aa_module_handle_note_off(&mut module, 40, velocity(0.5));
    set_param_float(&mut module, 9, 8, velocity(0.25));
    assert_eq!(
        aa_module_compute_one_two_non(&mut module, 16),
        vec![
            EngineCall::HandleNoteOn(40, velocity(1.0)),
            EngineCall::SetParamFloat(9, 8, velocity(0.125)),
            EngineCall::HandleNoteOff(40, velocity(0.5)),
            EngineCall::SetParamFloat(9, 8, velocity(0.25)),
            EngineCall::ComputeOneTwoNon(16),
        ]
    );
}

#[test]
fn handle_commands_drains_everything_pending() {
    let mut module = AAModule::new(None);
    set_param_float(&mut module, 1, 1, velocity(0.5));
    aa_module_handle_note_on(&mut module, -1, velocity(0.5));
    assert_eq!(
        handle_commands(&mut module),
        vec![
            EngineCall::SetParamFloat(1, 1, velocity(0.5)),
            EngineCall::HandleNoteOn(-1, velocity(0.5)),
        ]
    );
    assert_eq!(handle_commands(&mut module), Vec::<EngineCall>::new());
}

#[test]
fn handle_commands_delivers_more_than_one_command() {
    let mut module = AAModule::new(None);
    for pitch in 0..10 {
        aa_module_handle_note_on(&mut module, pitch, velocity(1.0));
    }
    assert_eq!(handle_commands(&mut module).len(), 10);
}

#[test]
fn counts_are_what_the_engine_reported() {
    assert_eq!(aa_module_get_number_inputs(Some(2)), 2);
    assert_eq!(aa_module_get_number_outputs(Some(6)), 6);
    assert_eq!(aa_module_get_number_inputs(Some(0)), 0);
    assert_eq!(aa_module_get_number_outputs(Some(-1)), -1);
    assert_eq!(aa_module_get_number_inputs(Some(i32::MAX)), i32::MAX);
}

#[test]
fn counts_are_zero_where_the_engine_failed() {
    assert_eq!(aa_module_get_number_inputs(None), 0);
    assert_eq!(aa_module_get_number_outputs(None), 0);
}

#[test]
fn gui_description_is_kept() {
    let module = AAModule::new(Some(String::from("{\"widgets\":[]}")));
    assert_eq!(
        get_gui_description(&module),
        Some(String::from("{\"widgets\":[]}"))
    );
    assert_eq!(get_gui_description(&AAModule::new(None)), None);
}

#[test]
fn queueing_leaves_the_gui_description_alone() {
    let mut module = AAModule::new(Some(String::from("gui")));
    set_param_float(&mut module, 1, 2, velocity(0.5));
    let _ = aa_module_compute_zero_one(&mut module, 8);
    assert_eq!(get_gui_description(&module), Some(String::from("gui")));
}

#[test]
fn commands_are_plain_copies() {
    let command = Command::Param(1, 2, velocity(0.5));
    let copy = command;
    assert_eq!(command, copy);
    assert_ne!(command, Command::Param(1, 2, velocity(0.75)));
}
