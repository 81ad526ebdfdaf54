use signal_control::ui::target_state;
use signal_control::{AppState, ControlError, Spi, Ui, UiMessage, UiState};

#[test]
fn mode_constructors_reject_out_of_range_parameters() {
    assert_eq!(AppState::constant(0), Ok(AppState::Constant(0)));
    assert_eq!(AppState::constant(1_000_000), Ok(AppState::Constant(1_000_000)));
    assert_eq!(AppState::constant(1_000_001), Err(ControlError::InvalidLevel));
    assert_eq!(AppState::circular(1), Ok(AppState::Circular(1)));
    assert_eq!(AppState::circular(0), Err(ControlError::InvalidFrequency));
}

#[test]
fn target_state_maps_selection_to_mode() {
    assert_eq!(target_state(UiState::Paused, 42, 5000), Ok(AppState::Paused));
    assert_eq!(target_state(UiState::Constant, 0, 5000), Ok(AppState::Constant(0)));
    assert_eq!(
        target_state(UiState::Constant, u16::MAX, 5000),
        Ok(AppState::Constant(1_000_000))
    );
    // The slider maps linearly, truncating: 32768 * 1_000_000 / 65535.
    assert_eq!(
        target_state(UiState::Constant, 32768, 5000),
        Ok(AppState::Constant(500_007))
    );
    assert_eq!(target_state(UiState::Circular, 42, 5000), Ok(AppState::Circular(5000)));
    assert_eq!(
        target_state(UiState::Circular, 42, 0),
        Err(ControlError::InvalidFrequency)
    );
}

#[test]
fn interface_starts_paused_with_no_error() {
    let (_spi, tx) = Spi::new();
    let ui = Ui::new(tx);
    assert_eq!(ui.state(), UiState::Paused);
    assert_eq!(ui.value(), 0);
    assert_eq!(ui.current_error(), None);
}

#[test]
fn update_tracks_selection_and_slider() {
    let (mut spi, tx) = Spi::new();
    let mut ui = Ui::new(tx);
    ui.update(UiMessage::SetValue(32768), 5000);
    assert_eq!(ui.value(), 32768);
    assert_eq!(ui.state(), UiState::Paused);
    ui.update(UiMessage::ChangeState(UiState::Circular), 5000);
    assert_eq!(ui.state(), UiState::Circular);
    assert_eq!(ui.value(), 32768);
    // The loop sees only the newest command of the burst.
    spi.step(0);
    assert_eq!(spi.current_mode(), AppState::Circular(5000));
    assert_eq!(ui.current_error(), None);
}

#[test]
fn dead_channel_surfaces_dismissable_error() {
    let (spi, tx) = Spi::new();
    drop(spi);
    let mut ui = Ui::new(tx);
    ui.update(UiMessage::ChangeState(UiState::Constant), 5000);
    assert_eq!(ui.state(), UiState::Constant);
    assert_eq!(ui.current_error(), Some(ControlError::Disconnected));
    ui.update(UiMessage::ClearError, 5000);
    assert_eq!(ui.current_error(), None);
}

#[test]
fn successful_send_leaves_shown_error_unchanged() {
    let (mut spi, tx) = Spi::new();
    let mut ui = Ui::new(tx);
    // A rejected parameter puts an error on show...
    ui.update(UiMessage::ChangeState(UiState::Circular), 0);
    assert_eq!(ui.current_error(), Some(ControlError::InvalidFrequency));
    // ...and a later successful send does not touch it: only dismissal does.
    ui.update(UiMessage::SetValue(100), 5000);
    assert_eq!(ui.current_error(), Some(ControlError::InvalidFrequency));
    spi.step(0);
    assert_eq!(spi.current_mode(), AppState::Circular(5000));
    ui.update(UiMessage::ClearError, 5000);
    assert_eq!(ui.current_error(), None);
}

#[test]
fn zero_frequency_is_rejected_at_the_boundary() {
    let (mut spi, tx) = Spi::new();
    let mut ui = Ui::new(tx);
    ui.update(UiMessage::ChangeState(UiState::Circular), 0);
    assert_eq!(ui.current_error(), Some(ControlError::InvalidFrequency));
    // Nothing was sent: the loop stays paused.
    assert_eq!(spi.step(0), signal_control::SinkAction::Sleep);
    assert_eq!(spi.current_mode(), AppState::Paused);
}
