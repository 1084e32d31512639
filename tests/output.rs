use focusgo_capture::crop::{CropBounds, PixelSelection};
use focusgo_capture::output::{
    complete_capture_result, crop_capture, generate_output_file_name, output_directory_step,
    store_picked_directory, LocalTimestamp, OutputDirectoryState, OutputDirectoryStep,
};

#[test]
fn generates_focusgo_file_name() {
    let date = LocalTimestamp { year: 2026, month: 2, day: 19, hour: 21, minute: 30, second: 45 };

    let name = generate_output_file_name(&date);
    assert!(name.starts_with("focusgo-"));
    assert!(name.ends_with(".png"));
}

#[test]
fn file_name_carries_zero_padded_timestamp() {
    let date = LocalTimestamp { year: 2026, month: 2, day: 19, hour: 21, minute: 30, second: 45 };
    assert_eq!(generate_output_file_name(&date), "focusgo-20260219-213045.png");
    let early = LocalTimestamp { year: 7, month: 1, day: 2, hour: 0, minute: 5, second: 9 };
    assert_eq!(generate_output_file_name(&early), "focusgo-00070102-000509.png");
}

#[test]
fn years_outside_four_digits_carry_a_sign() {
    let far = LocalTimestamp { year: 12345, month: 12, day: 31, hour: 23, minute: 59, second: 59 };
    assert_eq!(generate_output_file_name(&far), "focusgo-+123451231-235959.png");
    let before = LocalTimestamp { year: -1, month: 3, day: 4, hour: 5, minute: 6, second: 7 };
    assert_eq!(generate_output_file_name(&before), "focusgo--00010304-050607.png");
}

#[test]
fn crop_copies_the_selected_pixels() {
    // A 3 by 2 image whose pixel (x, y) holds the bytes [x, y, 7, 255].
    let mut rgba = Vec::new();
    for y in 0..2u8 {
        for x in 0..3u8 {
            rgba.extend_from_slice(&[x, y, 7, 255]);
        }
    }
    let (crop, pixels) = crop_capture(&rgba, 3, 2, &PixelSelection::whole(1, 1, 5, 5)).unwrap();
    assert_eq!(crop, CropBounds { x: 1, y: 1, width: 2, height: 1 });
    assert_eq!(pixels, vec![1, 1, 7, 255, 2, 1, 7, 255]);
}

#[test]
fn crop_refuses_like_crop_bounds() {
    let rgba = vec![0u8; 16];
    let error = crop_capture(&rgba, 2, 2, &PixelSelection::whole(5, 0, 1, 1)).unwrap_err();
    assert_eq!(error, "Selection is outside the image bounds");
}

#[test]
fn output_directory_state_holds_the_choice() {
    let mut state = OutputDirectoryState::new(None);
    assert_eq!(state.get(), None);
    state.set(Some("/home/u/shots".to_string()));
    assert_eq!(state.get(), Some("/home/u/shots".to_string()));
    let loaded = OutputDirectoryState::new(Some("/data".to_string()));
    assert_eq!(loaded.get(), Some("/data".to_string()));
}

#[test]
fn stored_directory_is_used_without_asking() {
    let state = OutputDirectoryState::new(Some("/data/shots".to_string()));
    match output_directory_step(&state) {
        OutputDirectoryStep::UseStored(d) => assert_eq!(d, "/data/shots"),
        OutputDirectoryStep::AskPicker => panic!("a stored directory needs no picker"),
    }
    let empty = OutputDirectoryState::new(None);
    assert!(matches!(output_directory_step(&empty), OutputDirectoryStep::AskPicker));
}

#[test]
fn dismissed_picker_is_a_cancellation() {
    let mut state = OutputDirectoryState::new(None);
    assert_eq!(
        store_picked_directory(&mut state, None).unwrap_err(),
        "Output folder selection cancelled"
    );
    assert_eq!(state.get(), None);
    assert_eq!(store_picked_directory(&mut state, Some("/x".to_string())).unwrap(), "/x");
    assert_eq!(state.get(), Some("/x".to_string()));
}

#[test]
fn result_reports_saved_path_and_clipboard() {
    let result = complete_capture_result(
        "cap-1".to_string(),
        "/home/u/shots".to_string(),
        "focusgo-20260219-213045.png".to_string(),
        false,
    );
    assert_eq!(result.saved_path, "/home/u/shots/focusgo-20260219-213045.png");
    assert_eq!(result.capture_id, "cap-1");
    assert_eq!(result.file_name, "focusgo-20260219-213045.png");
    assert_eq!(result.output_directory, "/home/u/shots");
    assert!(!result.copied_to_clipboard);
}
