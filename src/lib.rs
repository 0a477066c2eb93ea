//! Logic of a small viewing-system window: the striped screen texture, the
//! per-frame event decisions, what the panel's button presses lead to, the
//! view-mode toggle and the messages shown for a file-open dialog.

mod controls;
mod dialog;
mod session;
mod texture;
mod view_mode;

pub use controls::{handle_presses, reset_line, PressAction, PressOutcome};
pub use dialog::{
    debug_list_text, debug_str_text, file_path_line, file_path_text, files_line, files_text,
    joined_debug_texts, message_of, path_texts, response_message, DialogResponse,
    DATA_FILE_EXTENSION,
};
pub use session::{is_exit, must_wait, plan_frame, Event, FramePlan, Key};
pub use texture::{
    gray_rgba, is_stripe_image, screen_pixels, stripe_image_pixels, stripe_level, stripe_pixel,
    stripe_rgba, SCREEN_HEIGHT, SCREEN_WIDTH,
};
pub use view_mode::{mode_label, other_mode, toggle_twice_restores, ViewMode};
