//! Verified core of the porecatu window chrome: pure state machines and
//! parsers behind the tab bar, popovers, git status segment and hyperlinks.

pub mod ids;
pub mod dialog;
pub mod text;
pub mod git;
pub mod hyperlink;
pub mod cycle;
pub mod group_menu;
pub mod context_menu;
pub mod move_to_group;
pub mod group_editor;
pub mod selection;
pub mod box_glyphs;
pub mod reload;
pub mod search_bar;
pub mod keymap;
pub mod input;
pub mod palette;
pub mod popover_input;
pub mod bindings;
pub mod animation;
pub mod startup;
pub mod grid_marks;
