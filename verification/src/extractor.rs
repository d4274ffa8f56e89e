//! Putting a downloaded file in place: unpacking an archive, or copying a
//! single file.
//!
//! The functions here decide what is done and in which order. The caller
//! performs the steps one after the other and stops at the first that
//! fails, so that the downloaded file is removed only after everything
//! before has succeeded.

use crate::text::{ends_with, has_suffix, lowercase_of, same_text, to_lowercase};
use vstd::prelude::*;
use vstd::string::*;

verus! {

/// The kinds of archive that can be unpacked.
#[derive(Debug, Clone, Copy, PartialEq, Eq)]
pub enum ArchiveFormat {
    Zip,
    TarGz,
}

/// Why a package could not be fetched or put in place.
#[derive(Debug, Clone, Copy, PartialEq, Eq)]
pub enum AcquisitionError {
    /// The file's name ends in none of the supported extensions.
    UnsupportedFormat,
    /// The server did not say how long the download is.
    MissingLength,
    /// The transfer, or writing what was received, failed.
    TransferFailed,
}

/// One thing to do in the course of an installation.
#[derive(Debug, Clone, PartialEq, Eq)]
pub enum Step {
    /// Fetch `url` into the file `to`.
    Download { url: String, to: String },
    /// Create the directory, and those above it, unless it exists.
    EnsureDir { path: String },
    /// Unpack the archive into the directory.
    Unpack { format: ArchiveFormat, archive: String, dest: String },
    /// Copy the file.
    CopyFile { from: String, to: String },
    /// Delete the file.
    RemoveFile { path: String },
}

pub enum StepModel {
    Download { url: Seq<char>, to: Seq<char> },
    EnsureDir { path: Seq<char> },
    Unpack { format: ArchiveFormat, archive: Seq<char>, dest: Seq<char> },
    CopyFile { from: Seq<char>, to: Seq<char> },
    RemoveFile { path: Seq<char> },
}

impl View for Step {
    type V = StepModel;

    open spec fn view(&self) -> StepModel {
        match *self {
            Step::Download { url, to } => StepModel::Download { url: url@, to: to@ },
            Step::EnsureDir { path } => StepModel::EnsureDir { path: path@ },
            Step::Unpack { format, archive, dest } => StepModel::Unpack {
                format,
                archive: archive@,
                dest: dest@,
            },
            Step::CopyFile { from, to } => StepModel::CopyFile { from: from@, to: to@ },
            Step::RemoveFile { path } => StepModel::RemoveFile { path: path@ },
        }
    }
}

pub open spec fn step_models(steps: Seq<Step>) -> Seq<StepModel> {
    steps.map_values(|s: Step| s@)
}

/// The format that a lower-case file name stands for, by its extension.
pub open spec fn format_of(lowered: Seq<char>) -> Option<ArchiveFormat> {
    if has_suffix(lowered, ".zip"@) {
        Some(ArchiveFormat::Zip)
    } else if has_suffix(lowered, ".tar.gz"@) || has_suffix(lowered, ".tgz"@) {
        Some(ArchiveFormat::TarGz)
    } else {
        None
    }
}

/// The steps that unpack `archive` into `dest`: the directory first, the
/// archive's removal last.
pub open spec fn extract_steps(format: ArchiveFormat, archive: Seq<char>, dest: Seq<char>) -> Seq<
    StepModel,
> {
    seq![
        StepModel::EnsureDir { path: dest },
        StepModel::Unpack { format, archive, dest },
        StepModel::RemoveFile { path: archive },
    ]
}

/// The steps that put a single downloaded file in place.
pub open spec fn copy_steps(source: Seq<char>, dir: Seq<char>, target: Seq<char>) -> Seq<
    StepModel,
> {
    seq![
        StepModel::EnsureDir { path: dir },
        StepModel::CopyFile { from: source, to: target },
        StepModel::RemoveFile { path: source },
    ]
}

/// Tells the format of an archive from its lower-case file name.
pub fn archive_format(lowered: &str) -> (r: Option<ArchiveFormat>)
    ensures
        r == format_of(lowered@),
{
    if ends_with(lowered, ".zip") {
        Some(ArchiveFormat::Zip)
    } else if ends_with(lowered, ".tar.gz") || ends_with(lowered, ".tgz") {
        Some(ArchiveFormat::TarGz)
    } else {
        None
    }
}

/// The steps that unpack an archive of a known format.
pub fn unpack_steps(format: ArchiveFormat, archive_path: &str, extract_to: &str) -> (r: Vec<Step>)
    ensures
        step_models(r@) == extract_steps(format, archive_path@, extract_to@),
{
    let mut steps: Vec<Step> = Vec::new();
    steps.push(Step::EnsureDir { path: String::from_str(extract_to) });
    steps.push(
        Step::Unpack {
            format,
            archive: String::from_str(archive_path),
            dest: String::from_str(extract_to),
        },
    );
    steps.push(Step::RemoveFile { path: String::from_str(archive_path) });
    steps
}

/// Plans the unpacking of `archive_path` into `extract_to`. The format is
/// told from the file name's extension, in any case. A file of another
/// kind is refused with no step at all, so nothing on disk changes.
pub fn extract_archive(archive_path: &str, extract_to: &str) -> (r: Result<
    Vec<Step>,
    AcquisitionError,
>)
    ensures
        match format_of(lowercase_of(archive_path@)) {
            Some(format) => r is Ok && step_models(r->Ok_0@) == extract_steps(
                format,
                archive_path@,
                extract_to@,
            ),
            None => r == Err::<Vec<Step>, AcquisitionError>(AcquisitionError::UnsupportedFormat),
        },
{
    let lowered = to_lowercase(archive_path);
    match archive_format(lowered.as_str()) {
        Some(format) => Ok(unpack_steps(format, archive_path, extract_to)),
        None => Err(AcquisitionError::UnsupportedFormat),
    }
}

/// Plans the delivery of a single downloaded file: it is copied to
/// `target` in the directory `dir`, and then removed.
pub fn place_single_file(source: &str, dir: &str, target: &str) -> (r: Vec<Step>)
    ensures
        step_models(r@) == copy_steps(source@, dir@, target@),
{
    let mut steps: Vec<Step> = Vec::new();
    steps.push(Step::EnsureDir { path: String::from_str(dir) });
    steps.push(Step::CopyFile { from: String::from_str(source), to: String::from_str(target) });
    steps.push(Step::RemoveFile { path: String::from_str(source) });
    steps
}

/// The extension under which a download from `url` is kept until it is
/// put in place.
pub open spec fn temp_extension_spec(url: Seq<char>) -> Seq<char> {
    if has_suffix(url, ".tar.gz"@) || has_suffix(url, ".tgz"@) {
        "tar.gz"@
    } else if has_suffix(url, ".php"@) {
        "php"@
    } else {
        "zip"@
    }
}

/// Tells the extension of a download from its address.
pub fn temp_extension(url: &str) -> (r: &'static str)
    ensures
        r@ == temp_extension_spec(url@),
{
    if ends_with(url, ".tar.gz") || ends_with(url, ".tgz") {
        "tar.gz"
    } else if ends_with(url, ".php") {
        "php"
    } else {
        "zip"
    }
}

/// The file under which a package's download is kept until it is put in
/// place: the package's name as the user wrote it, with the download's
/// extension.
pub open spec fn temp_file_spec(package: Seq<char>, url: Seq<char>) -> Seq<char> {
    package + "."@ + temp_extension_spec(url)
}

/// The directory into which a package's archive is unpacked.
pub open spec fn package_dir_spec(package: Seq<char>) -> Seq<char> {
    "packages/"@ + package
}

/// The steps that install a package whose archive has the format
/// `format`, if it has one. `adminer` is a single file for the web
/// directory; every other package is an archive for a directory of its
/// own, and is refused where the download is no archive. The download
/// comes first and its removal last. The paths are relative to the
/// launcher's directory, with `/` between their parts.
pub open spec fn install_steps_spec(
    package: Seq<char>,
    url: Seq<char>,
    format: Option<ArchiveFormat>,
) -> Result<Seq<StepModel>, AcquisitionError> {
    let temp = temp_file_spec(package, url);
    let download = seq![StepModel::Download { url, to: temp }];
    if package == "adminer"@ {
        Ok(download + copy_steps(temp, "www"@, "www/adminer.php"@))
    } else {
        match format {
            Some(f) => Ok(download + extract_steps(f, temp, package_dir_spec(package))),
            None => Err(AcquisitionError::UnsupportedFormat),
        }
    }
}

/// The directory of an installed package, below the launcher's directory.
pub fn package_dir(package: &str) -> (r: String)
    ensures
        r@ == package_dir_spec(package@),
{
    let mut r = String::from_str("packages/");
    r.append(package);
    r
}

/// The name of the file under which a package's download is kept.
pub fn temp_file_name(package: &str, url: &str) -> (r: String)
    ensures
        r@ == temp_file_spec(package@, url@),
{
    let mut r = String::from_str(package);
    r.append(".");
    r.append(temp_extension(url));
    r
}

fn after_download(url: &str, temp: &str, mut rest: Vec<Step>) -> (r: Vec<Step>)
    ensures
        step_models(r@) == seq![StepModel::Download { url: url@, to: temp@ }] + step_models(
            rest@,
        ),
{
    let ghost models = step_models(rest@);
    let mut steps: Vec<Step> = Vec::new();
    steps.push(Step::Download { url: String::from_str(url), to: String::from_str(temp) });
    steps.append(&mut rest);
    steps
}

/// Plans the installation of the package that the user named `package`,
/// downloaded from `url`, where the download has the format `format`.
pub fn install_steps_for(package: &str, url: &str, format: Option<ArchiveFormat>) -> (r: Result<
    Vec<Step>,
    AcquisitionError,
>)
    ensures
        match install_steps_spec(package@, url@, format) {
            Ok(steps) => r is Ok && step_models(r->Ok_0@) == steps,
            Err(e) => r == Err::<Vec<Step>, AcquisitionError>(e),
        },
{
    let temp = temp_file_name(package, url);
    if same_text(package, "adminer") {
        let rest = place_single_file(temp.as_str(), "www", "www/adminer.php");
        Ok(after_download(url, temp.as_str(), rest))
    } else {
        match format {
            Some(f) => {
                let dest = package_dir(package);
                let rest = unpack_steps(f, temp.as_str(), dest.as_str());
                Ok(after_download(url, temp.as_str(), rest))
            },
            None => Err(AcquisitionError::UnsupportedFormat),
        }
    }
}

/// Plans the installation of the package that the user named `package`,
/// downloaded from `url`. The format is told from the extension of the
/// file under which the download is kept, in any case.
pub fn install_steps(package: &str, url: &str) -> (r: Result<Vec<Step>, AcquisitionError>)
    ensures
        match install_steps_spec(
            package@,
            url@,
            format_of(lowercase_of(temp_file_spec(package@, url@))),
        ) {
            Ok(steps) => r is Ok && step_models(r->Ok_0@) == steps,
            Err(e) => r == Err::<Vec<Step>, AcquisitionError>(e),
        },
{
    let temp = temp_file_name(package, url);
    let lowered = to_lowercase(temp.as_str());
    install_steps_for(package, url, archive_format(lowered.as_str()))
}

/// The course of a plan: how many of its steps are done, and whether one
/// has failed. The caller asks for the next step, performs it, and
/// reports how it went; after a failure no further step is handed out.
pub struct Run {
    steps: Vec<Step>,
    done: usize,
    failed: bool,
}

impl Run {
    pub closed spec fn steps(&self) -> Seq<StepModel> {
        step_models(self.steps@)
    }

    /// How many steps were reported as done.
    pub closed spec fn done(&self) -> nat {
        self.done as nat
    }

    pub closed spec fn failed(&self) -> bool {
        self.failed
    }

    /// The step to perform now, if there is one.
    pub open spec fn pending(&self) -> Option<StepModel> {
        if !self.failed() && self.done() < self.steps().len() {
            Some(self.steps()[self.done() as int])
        } else {
            None
        }
    }

    /// Whether every step is done.
    pub open spec fn complete(&self) -> bool {
        !self.failed() && self.done() >= self.steps().len()
    }

    /// A run of `steps`, none of them done yet.
    pub fn new(steps: Vec<Step>) -> (r: Self)
        ensures
            r.steps() == step_models(steps@),
            r.done() == 0,
            !r.failed(),
    {
        Run { steps, done: 0, failed: false }
    }

    /// The step to perform now.
    pub fn next(&self) -> (r: Option<&Step>)
        ensures
            match r {
                Some(step) => self.pending() == Some(step@),
                None => self.pending() is None,
            },
    {
        if !self.failed && self.done < self.steps.len() {
            Some(&self.steps[self.done])
        } else {
            None
        }
    }

    /// Takes the report on the pending step: done, or failed. Without a
    /// pending step a report changes nothing.
    pub fn report(&mut self, ok: bool)
        ensures
            final(self).steps() == old(self).steps(),
            old(self).pending() is None ==> final(self).done() == old(self).done(),
            old(self).pending() is None ==> final(self).failed() == old(self).failed(),
            old(self).pending() is Some && ok ==> final(self).done() == old(self).done() + 1
                && !final(self).failed(),
            old(self).pending() is Some && !ok ==> final(self).done() == old(self).done()
                && final(self).failed(),
    {
        if !self.failed && self.done < self.steps.len() {
            if ok {
                self.done = self.done + 1;
            } else {
                self.failed = true;
            }
        }
    }

    /// How the run ended: `Some(true)` when every step is done,
    /// `Some(false)` when one failed, `None` while a step is pending.
    pub fn outcome(&self) -> (r: Option<bool>)
        ensures
            r == (if self.failed() {
                Some(false)
            } else if self.complete() {
                Some(true)
            } else {
                None::<bool>
            }),
            r is None <==> self.pending() is Some,
    {
        if self.failed {
            Some(false)
        } else if self.done >= self.steps.len() {
            Some(true)
        } else {
            None
        }
    }
}

/// The downloaded file is removed last: in an installation, its removal
/// is pending only when the download and every step that uses the file
/// are done, and nothing is pending after it.
pub proof fn lemma_removal_comes_last(
    package: Seq<char>,
    url: Seq<char>,
    format: Option<ArchiveFormat>,
    run: Run,
)
    requires
        install_steps_spec(package, url, format) is Ok,
        run.steps() == install_steps_spec(package, url, format)->Ok_0,
    ensures
        run.steps().len() == 4,
        run.steps()[0] == (StepModel::Download { url, to: temp_file_spec(package, url) }),
        run.steps()[3] == (StepModel::RemoveFile { path: temp_file_spec(package, url) }),
        run.pending() == Some(StepModel::RemoveFile { path: temp_file_spec(package, url) })
            ==> run.done() == 3,
{
}

/// The extension decides, and decides one way: a name that ends in
/// `.zip` is a zip archive and nothing else, one that ends in `.tar.gz`
/// or `.tgz` is a compressed tar archive and nothing else, and every
/// other name is no archive.
pub proof fn lemma_dispatch_by_extension(lowered: Seq<char>)
    ensures
        has_suffix(lowered, ".zip"@) ==> format_of(lowered) == Some(ArchiveFormat::Zip),
        has_suffix(lowered, ".tar.gz"@) || has_suffix(lowered, ".tgz"@) ==> format_of(lowered)
            == Some(ArchiveFormat::TarGz),
        !has_suffix(lowered, ".zip"@) && !has_suffix(lowered, ".tar.gz"@) && !has_suffix(
            lowered,
            ".tgz"@,
        ) ==> format_of(lowered) is None,
{
    reveal_strlit(".zip");
    reveal_strlit(".tar.gz");
    reveal_strlit(".tgz");
    let n = lowered.len() as int;
    if has_suffix(lowered, ".zip"@) {
        assert(lowered.subrange(n - 4, n)[3] == 'p');
        if has_suffix(lowered, ".tar.gz"@) {
            assert(lowered.subrange(n - 7, n)[6] == 'z');
        }
        if has_suffix(lowered, ".tgz"@) {
            assert(lowered.subrange(n - 4, n)[3] == 'z');
        }
    }
}

} // verus!
