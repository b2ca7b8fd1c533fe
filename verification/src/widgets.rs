//! What the widgets decide before anything is drawn.

pub mod slice_widget;
pub mod key_value_list_widget;
pub mod title_bar;
pub mod color_bar;
