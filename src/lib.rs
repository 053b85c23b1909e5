//! Bookkeeping for numeric experiments: the series and page model that
//! describes charts, the deterministic colour assignment, and the ordered
//! steps of saving, plotting, loading and replotting a run directory.
mod color;
mod error;
mod experiment;
mod lifecycle;
mod page;
mod paths;
mod series;

pub use color::{
    assign_colors, assigned_color, lemma_color_assignment, palette, palette_color, uncolored_count,
    PALETTE_LEN,
};
pub use error::ExperimentError;
pub use experiment::{begin_plot, begin_save, Experiment};
pub use lifecycle::{
    data_file, data_path, failure_of, lemma_replot_touches_images_only, image_file, image_path, join, load_plan, page_names,
    params_file, params_path, plot_plan, save_plan, save_prefix, Action, Outcome, Run, RunModel,
    Step,
};
pub use page::{explicit_colors, stroke_of, zip_points, Axes, Page, Stroke};
pub use paths::{make_path, run_dir, run_dir_path};
pub use series::{built_from, fresh_model, lemma_series_keeps_points, opt_view, Series, SeriesModel, Style, DEFAULT_WIDTH};
