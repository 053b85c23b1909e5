use vstd::prelude::*;
use crate::lifecycle::{page_names, plot_plan, save_plan, Run, RunModel};
use crate::page::Page;

verus! {

/// A value with numeric results that can describe itself as charts and
/// summarize its parameters. Persisting it also needs an encoding of the
/// value, which the caller of the lifecycle supplies.
pub trait Experiment<T> {
    /// The pages that show this experiment, built afresh on every call;
    /// possibly none. Does no I/O.
    fn render_pages(&self) -> Vec<Page<T>>;

    /// A human-readable summary of the experiment's parameters.
    fn print_params(&self) -> String;
}

/// Everything that saving `e` into `dir` works from: the run that orders
/// the steps, the pages it renders and the parameter text it writes.
pub fn begin_save<T, E: Experiment<T>>(e: &E, dir: &str) -> (r: (Run, Vec<Page<T>>, String))
    ensures
        r.0@ == RunModel::fresh(save_plan(dir@, page_names(r.1@))),
{
    let pages = e.render_pages();
    let params = e.print_params();
    let run = Run::save(dir, &pages);
    (run, pages, params)
}

/// Everything that plotting `e` into `dir` works from: the run and the
/// pages it renders.
pub fn begin_plot<T, E: Experiment<T>>(e: &E, dir: &str) -> (r: (Run, Vec<Page<T>>))
    ensures
        r.0@ == RunModel::fresh(plot_plan(dir@, page_names(r.1@))),
{
    let pages = e.render_pages();
    let run = Run::plot(dir, &pages);
    (run, pages)
}

} // verus!
