use vstd::prelude::*;
use vstd::string::StringExecFns;

verus! {

/// One entry of a remote directory listing.
#[derive(Debug)]
pub struct FileEntry {
    pub name: String,
    pub is_dir: bool,
}

/// What mirroring has to do for one entry of a remote directory.
#[derive(Debug)]
pub enum MirrorStep {
    /// Create the directory `name` below the local directory, then mirror
    /// the remote directory at `url` into it.
    Descend { url: String, name: String },
    /// Download the file at `url` into the file `name` below the local directory.
    Download { url: String, name: String },
}

/// A mirroring step as a mathematical value.
pub struct MirrorStepView {
    pub url: Seq<char>,
    pub name: Seq<char>,
    pub descend: bool,
}

impl View for MirrorStep {
    type V = MirrorStepView;

    open spec fn view(&self) -> MirrorStepView {
        match self {
            MirrorStep::Descend { url, name } => MirrorStepView { url: url@, name: name@, descend: true },
            MirrorStep::Download { url, name } => MirrorStepView { url: url@, name: name@, descend: false },
        }
    }
}

/// The URL of the entry `name` of the remote directory at `base_url`.
pub open spec fn entry_url(base_url: Seq<char>, name: Seq<char>) -> Seq<char> {
    base_url + "/"@ + name
}

/// The step for one entry of the remote directory at `base_url`.
pub open spec fn step_for(base_url: Seq<char>, entry: FileEntry) -> MirrorStepView {
    MirrorStepView { url: entry_url(base_url, entry.name@), name: entry.name@, descend: entry.is_dir }
}

/// The steps for the entries of the remote directory at `base_url`, in order.
pub open spec fn steps_for(base_url: Seq<char>, entries: Seq<FileEntry>) -> Seq<MirrorStepView> {
    entries.map_values(|entry: FileEntry| step_for(base_url, entry))
}

/// The steps in `steps` as mathematical values.
pub open spec fn step_views(steps: Seq<MirrorStep>) -> Seq<MirrorStepView> {
    steps.map_values(|step: MirrorStep| step@)
}

/// Plans the mirroring of one entry: a directory is created and descended
/// into, a file is downloaded; either is addressed by the base URL, a slash
/// and the entry's name.
pub fn plan_entry(base_url: &str, entry: &FileEntry) -> (step: MirrorStep)
    ensures
        step@ == step_for(base_url@, *entry),
{
    let mut url = String::from_str(base_url);
    url.append("/");
    url.append(entry.name.as_str());
    let name = entry.name.clone();
    if entry.is_dir {
        MirrorStep::Descend { url, name }
    } else {
        MirrorStep::Download { url, name }
    }
}

/// Plans the mirroring of one remote directory from its listing: one step
/// for each entry, in the order of the listing.
pub fn process_directory(base_url: &str, entries: &Vec<FileEntry>) -> (steps: Vec<MirrorStep>)
    ensures
        step_views(steps@) == steps_for(base_url@, entries@),
{
    let mut steps: Vec<MirrorStep> = Vec::new();
    let mut i: usize = 0;
    while i < entries.len()
        invariant
            i <= entries.len(),
            step_views(steps@) == steps_for(base_url@, entries@.take(i as int)),
        decreases entries.len() - i,
    {
        let step = plan_entry(base_url, &entries[i]);
        let ghost before = steps@;
        let ghost view = step@;
        steps.push(step);
        assert(step_views(steps@) =~= step_views(before).push(view));
        assert(steps_for(base_url@, entries@.take(i + 1)) =~= steps_for(base_url@, entries@.take(i as int)).push(
            step_for(base_url@, entries[i as int]),
        ));
        i += 1;
    }
    assert(entries@.take(entries.len() as int) =~= entries@);
    steps
}

/// The answer to a mirroring request whose local directory does not exist.
pub fn missing_path_message(local_path: &str) -> (message: String)
    ensures
        message@ == "The specified path '"@ + local_path@ + "' does not exist."@,
{
    let mut message = String::from_str("The specified path '");
    message.append(local_path);
    message.append("' does not exist.");
    message
}

/// The answer to a mirroring request that was carried out: a confirmation
/// that names the remote side, or the failure with what went wrong.
pub fn download_report(base_url: &str, outcome: &Result<(), String>) -> (report: Result<String, String>)
    ensures
        match *outcome {
            Ok(_) => report is Ok && report->Ok_0@ == "Files from '"@ + base_url@
                + "' downloaded successfully."@,
            Err(cause) => report is Err && report->Err_0@ == "Error during download: "@ + cause@,
        },
{
    match outcome {
        Ok(_) => {
            let mut message = String::from_str("Files from '");
            message.append(base_url);
            message.append("' downloaded successfully.");
            Ok(message)
        },
        Err(cause) => {
            let mut message = String::from_str("Error during download: ");
            message.append(cause.as_str());
            Err(message)
        },
    }
}

} // verus!
