use adh_rs::equalizer::ControlStatus;
use adh_rs::protocol::{GUICommand, GUI_COMMAND_BUF_LEN};
use adh_rs::Weights;

#[test]
fn control_status_reports_activity() {
    assert!(ControlStatus::Active.is_active());
    assert!(!ControlStatus::Inactive.is_active());
    assert_eq!(ControlStatus::default(), ControlStatus::Inactive);
}

#[test]
fn commands_clone_with_their_weights() {
    let w = Weights::new((0..32u32).collect()).unwrap();
    let cmd = GUICommand::SetWeights(w);
    let copy = cmd.clone();
    match (cmd, copy) {
        (GUICommand::SetWeights(a), GUICommand::SetWeights(b)) => {
            for i in 0..32 {
                assert_eq!(a.get(i), b.get(i));
            }
        }
        _ => panic!("clone changed the command variant"),
    }
    assert!(matches!(GUICommand::Toggle.clone(), GUICommand::Toggle));
    assert!(matches!(GUICommand::Quit.clone(), GUICommand::Quit));
    assert!(GUI_COMMAND_BUF_LEN >= 32 * 4);
}
