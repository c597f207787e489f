//! What the screens show, as text and layout, apart from drawing it.
pub mod main_view;
pub mod format_modal;
pub mod image_modal;
pub mod dir_browser_modal;
