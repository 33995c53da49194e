use image_viewer::config::InputData;
use image_viewer::display::{can_handle, DisplayLoop};
use image_viewer::error::ViewError;
use image_viewer::interaction::{Command, Event, InteractionState, Key, KeyState};
use image_viewer::pixels::{buffer_fits, convert, PixelGrid, PixelLayout};

fn display_of(width: u32, height: u32, rgb: Vec<u8>) -> DisplayLoop {
    let grid = PixelGrid::new(width, height, PixelLayout::Rgb8, rgb).unwrap();
    DisplayLoop::new(convert(&grid).unwrap())
}

#[test]
fn buffer_starts_as_the_converted_picture() {
    let display = display_of(2, 1, vec![1, 2, 3, 4, 5, 6]);
    assert_eq!(display.presentation().as_bytes(), &vec![1, 2, 3, 255, 4, 5, 6, 255]);
    assert_eq!(display.presentation().pixel_width(), 2);
    assert_eq!(display.presentation().pixel_height(), 1);
    assert!(!display.is_fullscreen());
    assert_eq!(display.interaction_state(), InteractionState::new());
}

#[test]
fn resize_replaces_the_buffer() {
    let mut display = display_of(2, 1, vec![1, 2, 3, 4, 5, 6]);
    let first = display.handle_event(Event::Resized { width: 5, height: 7 });
    assert_eq!(first, Command::ResizeBuffer(5, 7));
    assert_eq!(display.presentation().as_bytes().len(), 5 * 7 * 4);
    let second = display.handle_event(Event::Resized { width: 3, height: 2 });
    assert_eq!(second, Command::ResizeBuffer(3, 2));
    assert_eq!(display.presentation().as_bytes().len(), 3 * 2 * 4);
    assert_eq!(display.presentation().pixel_width(), 3);
    assert_eq!(display.presentation().pixel_height(), 2);
    assert_eq!(
        display.presentation().as_bytes(),
        &vec![1, 2, 3, 255, 4, 5, 6, 255, 0, 0, 0, 0, 0, 0, 0, 0, 0, 0, 0, 0, 0, 0, 0, 0]
    );
}

#[test]
fn picture_comes_back_after_shrinking_and_growing() {
    let mut display = display_of(2, 1, vec![1, 2, 3, 4, 5, 6]);
    display.handle_event(Event::Resized { width: 1, height: 1 });
    assert_eq!(display.presentation().as_bytes(), &vec![1, 2, 3, 255]);
    display.handle_event(Event::ScaleFactorChanged { width: 2, height: 1 });
    assert_eq!(display.presentation().as_bytes(), &vec![1, 2, 3, 255, 4, 5, 6, 255]);
}

#[test]
fn other_commands_leave_the_buffer_alone() {
    let mut display = display_of(1, 1, vec![1, 2, 3]);
    let press = Event::KeyboardInput { key: Key::FullscreenToggle, state: KeyState::Pressed };
    assert_eq!(display.handle_event(Event::RedrawRequested), Command::Redraw);
    assert_eq!(display.handle_event(press), Command::ToggleFullscreen(true));
    assert!(display.is_fullscreen());
    assert_eq!(display.handle_event(press), Command::NoOp);
    assert_eq!(display.handle_event(Event::Other), Command::NoOp);
    assert_eq!(display.handle_event(Event::CloseRequested), Command::Exit);
    assert_eq!(display.presentation().as_bytes(), &vec![1, 2, 3, 255]);
    assert_eq!(
        display.interaction_state(),
        InteractionState { is_fullscreen: true, fullscreen_key_latched: true }
    );
}

#[test]
fn input_keeps_the_file_name() {
    let input = InputData::new(String::from("pictures/cat.png"));
    assert_eq!(input.file_name(), "pictures/cat.png");
    assert_eq!(InputData::new(String::new()).file_name(), "");
}

#[test]
fn each_cause_has_its_message() {
    let cause = String::from("no such file");
    assert_eq!(
        ViewError::OsWindowError(cause.clone()).message(),
        "Error occured: invalid window id"
    );
    assert_eq!(
        ViewError::ShowImageWindowError(cause.clone()).message(),
        "Unable to create a window"
    );
    assert_eq!(ViewError::SetImageWindowError(cause.clone()).message(), "Unable to set the image");
    assert_eq!(ViewError::FileError(cause.clone()).message(), "Unable to find or open a file");
    assert_eq!(ViewError::ImageError(cause.clone()).message(), "Unable to open an image");
    assert_eq!(ViewError::UnsupportedImageType.message(), "Unsupported image type");
    assert_eq!(ViewError::NoPrimaryDisplay.message(), "No primary display found");
}

#[test]
fn collaborator_failures_carry_their_cause() {
    let cause = String::from("no such file");
    assert_eq!(ViewError::FileError(cause.clone()).cause(), Some("no such file"));
    assert_eq!(ViewError::ImageError(cause.clone()).cause(), Some("no such file"));
    assert_eq!(ViewError::OsWindowError(cause.clone()).cause(), Some("no such file"));
    assert_eq!(ViewError::ShowImageWindowError(cause.clone()).cause(), Some("no such file"));
    assert_eq!(ViewError::SetImageWindowError(cause).cause(), Some("no such file"));
    assert_eq!(ViewError::UnsupportedImageType.cause(), None);
    assert_eq!(ViewError::NoPrimaryDisplay.cause(), None);
}

#[test]
fn every_event_but_a_huge_resize_can_be_handled() {
    assert!(can_handle(Event::RedrawRequested));
    assert!(can_handle(Event::CloseRequested));
    assert!(can_handle(Event::Resized { width: 1920, height: 1080 }));
    assert!(can_handle(Event::ScaleFactorChanged { width: 0, height: u32::MAX }));
    assert!(!can_handle(Event::Resized { width: u32::MAX, height: u32::MAX }));
    assert!(!can_handle(Event::ScaleFactorChanged { width: u32::MAX, height: u32::MAX }));
}

#[test]
fn buffer_fits_where_four_bytes_a_pixel_can_be_indexed() {
    assert!(buffer_fits(0, 0));
    assert!(buffer_fits(4000, 3000));
    assert!(!buffer_fits(u32::MAX, u32::MAX));
}
