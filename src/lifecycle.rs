use vstd::prelude::*;
use crate::error::ExperimentError;
use crate::page::Page;

verus! {

/// One piece of outside work in saving, plotting or loading a run directory.
/// The caller performs it and reports an [`Outcome`].
#[derive(Clone, Debug, PartialEq, Eq)]
pub enum Step {
    /// Create the directory and its parents; an existing one is no error.
    CreateDir { path: String },
    /// Write the experiment's parameter summary to `path`.
    WriteParams { path: String },
    /// Encode the experiment into bytes.
    EncodeData,
    /// Write the encoded bytes to `path`.
    WriteData { path: String },
    /// Read the bytes stored at `path`.
    ReadData { path: String },
    /// Decode the bytes read into an experiment.
    DecodeData,
    /// Render page `index`, called `name`, into the image file `path`.
    RenderPage { index: usize, name: String, path: String },
}

/// The abstract content of a [`Step`].
pub ghost enum Action {
    CreateDir(Seq<char>),
    WriteParams(Seq<char>),
    EncodeData,
    WriteData(Seq<char>),
    ReadData(Seq<char>),
    DecodeData,
    RenderPage(nat, Seq<char>, Seq<char>),
}

impl View for Step {
    type V = Action;

    open spec fn view(&self) -> Action {
        match self {
            Step::CreateDir { path } => Action::CreateDir(path@),
            Step::WriteParams { path } => Action::WriteParams(path@),
            Step::EncodeData => Action::EncodeData,
            Step::WriteData { path } => Action::WriteData(path@),
            Step::ReadData { path } => Action::ReadData(path@),
            Step::DecodeData => Action::DecodeData,
            Step::RenderPage { index, name, path } => Action::RenderPage(*index as nat, name@, path@),
        }
    }
}

/// What became of a step.
#[derive(Clone, Debug, PartialEq, Eq)]
pub enum Outcome {
    Done,
    /// The path to be read does not exist. Reported of any step but a
    /// read, it counts as a failure whose cause is `not found`.
    Missing,
    Failed { cause: String },
}

/// `file` inside the directory `dir`.
pub open spec fn join(dir: Seq<char>, file: Seq<char>) -> Seq<char> {
    dir + "/"@ + file
}

pub open spec fn params_path(dir: Seq<char>) -> Seq<char> {
    join(dir, "params.txt"@)
}

pub open spec fn data_path(dir: Seq<char>) -> Seq<char> {
    join(dir, "data.cbor"@)
}

pub open spec fn image_path(dir: Seq<char>, name: Seq<char>) -> Seq<char> {
    join(dir, name + ".svg"@)
}

/// The names of the pages, in order.
pub open spec fn page_names<T>(pages: Seq<Page<T>>) -> Seq<Seq<char>> {
    pages.map_values(|p: Page<T>| p.name@)
}

/// Plotting: one image per page, in page order.
pub open spec fn plot_plan(dir: Seq<char>, names: Seq<Seq<char>>) -> Seq<Action> {
    Seq::new(names.len(), |i: int| Action::RenderPage(i as nat, names[i], image_path(dir, names[i])))
}

/// What saving does before it plots: directory, parameters, data.
pub open spec fn save_prefix(dir: Seq<char>) -> Seq<Action> {
    seq![
        Action::CreateDir(dir),
        Action::WriteParams(params_path(dir)),
        Action::EncodeData,
        Action::WriteData(data_path(dir)),
    ]
}

/// Saving: the directory, the parameters, the data, then every image.
pub open spec fn save_plan(dir: Seq<char>, names: Seq<Seq<char>>) -> Seq<Action> {
    save_prefix(dir) + plot_plan(dir, names)
}

/// Loading: read the file, then decode it.
pub open spec fn load_plan(path: Seq<char>) -> Seq<Action> {
    seq![Action::ReadData(path), Action::DecodeData]
}

/// `e` is the error that reports outcome `o` of action `a`, a failed one.
pub open spec fn failure_of(a: Action, o: Outcome, e: ExperimentError) -> bool {
    match o {
        Outcome::Done => false,
        Outcome::Missing => match a {
            Action::ReadData(_) => e is NotFound,
            Action::RenderPage(_, name, _) => e is RenderFailed && e->page_name@ == name
                && e->RenderFailed_cause@ == "not found"@,
            Action::EncodeData | Action::DecodeData => e is SerializationError
                && e->SerializationError_cause@ == "not found"@,
            _ => e is IoError && e->IoError_cause@ == "not found"@,
        },
        Outcome::Failed { cause } => match a {
            Action::RenderPage(_, name, _) => e is RenderFailed && e->page_name@ == name
                && e->RenderFailed_cause@ == cause@,
            Action::EncodeData | Action::DecodeData => e is SerializationError
                && e->SerializationError_cause@ == cause@,
            _ => e is IoError && e->IoError_cause@ == cause@,
        },
    }
}

/// Replotting regenerates images only. Saving is a fixed prefix followed
/// by exactly the plot of the same pages; no step of that plot writes the
/// parameter file or the data file; and the load that begins a replot reads
/// the very file that saving wrote its data to.
pub proof fn lemma_replot_touches_images_only(dir: Seq<char>, names: Seq<Seq<char>>)
    ensures
        save_plan(dir, names).take(4) == save_prefix(dir),
        save_plan(dir, names).skip(4) == plot_plan(dir, names),
        save_plan(dir, names)[3] == Action::WriteData(data_path(dir)),
        load_plan(data_path(dir))[0] == Action::ReadData(data_path(dir)),
        forall|i: int| 0 <= i < names.len() ==> (#[trigger] plot_plan(dir, names)[i] matches Action::RenderPage(
            _,
            _,
            p,
        ) && p != params_path(dir) && p != data_path(dir)),
{
    reveal_strlit(".svg");
    reveal_strlit("params.txt");
    reveal_strlit("data.cbor");
    assert(save_plan(dir, names).take(4) =~= save_prefix(dir));
    assert(save_plan(dir, names).skip(4) =~= plot_plan(dir, names));
    assert forall|i: int| 0 <= i < names.len() implies (#[trigger] plot_plan(dir, names)[i] matches Action::RenderPage(
        _,
        _,
        p,
    ) && p != params_path(dir) && p != data_path(dir)) by {
        let p = image_path(dir, names[i]);
        let last = p.len() - 1;
        assert(p[last] == 'g');
        assert(params_path(dir)[params_path(dir).len() - 1] == 't');
        assert(data_path(dir)[data_path(dir).len() - 1] == 'r');
    }
}

/// The abstract state of a [`Run`].
pub ghost struct RunModel {
    pub steps: Seq<Action>,
    /// How many steps have been done.
    pub done: nat,
    pub failure: Option<ExperimentError>,
}

impl RunModel {
    /// Steps remain and none has failed.
    pub open spec fn pending(self) -> bool {
        self.failure is None && self.done < self.steps.len()
    }

    /// A run that has done nothing yet.
    pub open spec fn fresh(steps: Seq<Action>) -> RunModel {
        RunModel { steps, done: 0, failure: None }
    }
}

/// The decisions of one save, plot or load: which step comes next, and
/// when to stop. Steps come strictly in order; the first one that fails
/// ends the run, and what earlier steps did is left as it is.
#[derive(Debug)]
pub struct Run {
    steps: Vec<Step>,
    done: usize,
    failure: Option<ExperimentError>,
}

impl View for Run {
    type V = RunModel;

    closed spec fn view(&self) -> RunModel {
        RunModel {
            steps: self.steps@.map_values(|s: Step| s@),
            done: self.done as nat,
            failure: self.failure,
        }
    }
}

/// `dir/file`.
fn join_path(dir: &str, file: &str) -> (r: String)
    ensures
        r@ == join(dir@, file@),
{
    let mut r = String::from_str(dir);
    r.append("/");
    r.append(file);
    r
}

/// The parameter file of the run directory `dir`.
pub fn params_file(dir: &str) -> (r: String)
    ensures
        r@ == params_path(dir@),
{
    join_path(dir, "params.txt")
}

/// The data file of the run directory `dir`; `load` takes this path.
pub fn data_file(dir: &str) -> (r: String)
    ensures
        r@ == data_path(dir@),
{
    join_path(dir, "data.cbor")
}

/// The image file of the page called `name` in the run directory `dir`.
pub fn image_file(dir: &str, name: &str) -> (r: String)
    ensures
        r@ == image_path(dir@, name@),
{
    let mut file = String::from_str(name);
    file.append(".svg");
    join_path(dir, file.as_str())
}

fn push_render_steps<T>(steps: &mut Vec<Step>, dir: &str, pages: &Vec<Page<T>>)
    ensures
        final(steps)@.map_values(|s: Step| s@) == old(steps)@.map_values(|s: Step| s@) + plot_plan(dir@, page_names(pages@)),
{
    let ghost start = old(steps)@.map_values(|s: Step| s@);
    let ghost names = page_names(pages@);
    let mut i: usize = 0;
    while i < pages.len()
        invariant
            i <= pages@.len(),
            names == page_names(pages@),
            steps@.map_values(|s: Step| s@) == start + plot_plan(dir@, names).take(i as int),
        decreases pages@.len() - i,
    {
        let name = &pages[i].name;
        let path = image_file(dir, name.as_str());
        let ghost before = steps@;
        steps.push(Step::RenderPage { index: i, name: name.clone(), path });
        assert(names[i as int] == pages@[i as int].name@);
        assert(steps@.map_values(|s: Step| s@) =~= before.map_values(|s: Step| s@).push(
            plot_plan(dir@, names)[i as int],
        ));
        i = i + 1;
        assert(steps@.map_values(|s: Step| s@) =~= start + plot_plan(dir@, names).take(i as int));
    }
    assert(plot_plan(dir@, names).take(i as int) =~= plot_plan(dir@, names));
}

impl Run {
    /// Saving `pages` into `dir`.
    pub fn save<T>(dir: &str, pages: &Vec<Page<T>>) -> (r: Run)
        ensures
            r@ == RunModel::fresh(save_plan(dir@, page_names(pages@))),
    {
        let mut steps: Vec<Step> = Vec::new();
        steps.push(Step::CreateDir { path: String::from_str(dir) });
        steps.push(Step::WriteParams { path: params_file(dir) });
        steps.push(Step::EncodeData);
        steps.push(Step::WriteData { path: data_file(dir) });
        assert(steps@.map_values(|s: Step| s@) =~= save_prefix(dir@));
        push_render_steps(&mut steps, dir, pages);
        Run { steps, done: 0, failure: None }
    }

    /// Plotting `pages` into `dir`; nothing else in `dir` is touched.
    pub fn plot<T>(dir: &str, pages: &Vec<Page<T>>) -> (r: Run)
        ensures
            r@ == RunModel::fresh(plot_plan(dir@, page_names(pages@))),
    {
        let mut steps: Vec<Step> = Vec::new();
        push_render_steps(&mut steps, dir, pages);
        assert(Seq::<Action>::empty() + plot_plan(dir@, page_names(pages@)) =~= plot_plan(dir@, page_names(pages@)));
        Run { steps, done: 0, failure: None }
    }

    /// Loading the data file at `path`.
    pub fn load(path: &str) -> (r: Run)
        ensures
            r@ == RunModel::fresh(load_plan(path@)),
    {
        let mut steps: Vec<Step> = Vec::new();
        steps.push(Step::ReadData { path: String::from_str(path) });
        steps.push(Step::DecodeData);
        assert(steps@.map_values(|s: Step| s@) =~= load_plan(path@));
        Run { steps, done: 0, failure: None }
    }

    /// The first half of replotting `dir`: loading its data file. Plotting
    /// the loaded experiment with [`Run::plot`] is the second.
    pub fn replot(dir: &str) -> (r: Run)
        ensures
            r@ == RunModel::fresh(load_plan(data_path(dir@))),
    {
        let path = data_file(dir);
        Run::load(path.as_str())
    }
    #[verifier::type_invariant]
    spec fn inv(&self) -> bool {
        self.done <= self.steps.len()
    }

    /// Whether a step is still to be performed.
    pub fn is_pending(&self) -> (r: bool)
        ensures
            r == self@.pending(),
    {
        self.failure.is_none() && self.done < self.steps.len()
    }

    /// All steps of the run, done or not, in order.
    pub fn steps(&self) -> (r: &Vec<Step>)
        ensures
            r@.map_values(|s: Step| s@) == self@.steps,
    {
        &self.steps
    }

    /// The step to perform next; none once every step is done or one failed.
    pub fn current(&self) -> (r: Option<Step>)
        ensures
            r is Some <==> self@.pending(),
            r is Some ==> r->Some_0@ == self@.steps[self@.done as int],
    {
        if self.failure.is_none() && self.done < self.steps.len() {
            Some(copy_step(&self.steps[self.done]))
        } else {
            None
        }
    }

    /// Takes note of what became of the current step. A failure ends the run
    /// and is kept as its error; later steps are never handed out.
    pub fn record(&mut self, outcome: Outcome)
        requires
            old(self)@.pending(),
        ensures
            final(self)@.steps == old(self)@.steps,
            outcome is Done ==> final(self)@ == (RunModel { done: old(self)@.done + 1, ..old(self)@ }),
            !(outcome is Done) ==> {
                &&& final(self)@.done == old(self)@.done
                &&& final(self)@.failure is Some
                &&& failure_of(old(self)@.steps[old(self)@.done as int], outcome, final(self)@.failure->Some_0)
            },
    {
        proof { use_type_invariant(&*self); }
        match outcome {
            Outcome::Done => {
                self.done = self.done + 1;
            },
            Outcome::Missing => {
                let e = failure_error(&self.steps[self.done], true, String::from_str("not found"));
                self.failure = Some(e);
            },
            Outcome::Failed { cause } => {
                let e = failure_error(&self.steps[self.done], false, cause);
                self.failure = Some(e);
            },
        }
    }

    /// The result of a finished run: its failure, or success when every
    /// step was done.
    pub fn into_result(self) -> (r: Result<(), ExperimentError>)
        requires
            !self@.pending(),
        ensures
            self@.failure is Some ==> r == Err::<(), ExperimentError>(self@.failure->Some_0),
            self@.failure is None ==> r is Ok && self@.done == self@.steps.len(),
    {
        proof { use_type_invariant(&self); }
        match self.failure {
            Some(e) => Err(e),
            None => Ok(()),
        }
    }
}

fn copy_step(s: &Step) -> (r: Step)
    ensures
        r@ == s@,
{
    match s {
        Step::CreateDir { path } => Step::CreateDir { path: path.clone() },
        Step::WriteParams { path } => Step::WriteParams { path: path.clone() },
        Step::EncodeData => Step::EncodeData,
        Step::WriteData { path } => Step::WriteData { path: path.clone() },
        Step::ReadData { path } => Step::ReadData { path: path.clone() },
        Step::DecodeData => Step::DecodeData,
        Step::RenderPage { index, name, path } => Step::RenderPage {
            index: *index,
            name: name.clone(),
            path: path.clone(),
        },
    }
}

/// The error for a failed step; `missing` tells a path that does not exist
/// from another failure.
fn failure_error(s: &Step, missing: bool, cause: String) -> (r: ExperimentError)
    ensures
        missing && s@ is ReadData ==> r is NotFound,
        !(missing && s@ is ReadData) ==> match s@ {
            Action::RenderPage(_, name, _) => r is RenderFailed && r->page_name@ == name
                && r->RenderFailed_cause@ == cause@,
            Action::EncodeData | Action::DecodeData => r is SerializationError
                && r->SerializationError_cause@ == cause@,
            _ => r is IoError && r->IoError_cause@ == cause@,
        },
{
    match s {
        Step::ReadData { .. } if missing => ExperimentError::NotFound,
        Step::RenderPage { name, .. } => ExperimentError::RenderFailed { page_name: name.clone(), cause },
        Step::EncodeData | Step::DecodeData => ExperimentError::SerializationError { cause },
        _ => ExperimentError::IoError { cause },
    }
}

} // verus!
