pub mod pane;
