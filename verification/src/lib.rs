//! Layout and paint core of a web-page rendering engine: positioned render
//! boxes, greedy line breaking over shaped text metrics, and construction of
//! an ordered display list of primitive paint commands.

pub mod display_list;
pub mod geometry;
pub mod html_parser;
pub mod image_base;
pub mod image_holder;
pub mod layout_aux;
pub mod model;
pub mod node;
pub mod range;
pub mod render_box;
pub mod split;
pub mod style;
pub mod text_run;
pub mod textinput;
