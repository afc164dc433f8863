//! What is to be done to a file when a generator creates or modifies it,
//! for real or as a dry run. The caller touches the file system; the
//! decisions are made here.
use vstd::prelude::*;
use vstd::string::*;

verus! {

/// What the caller is to do to one file.
#[derive(Debug)]
pub enum FileAction {
    /// Leave the file as it is.
    Nothing,
    /// Open the file for writing, to see that it can be written, and write
    /// nothing.
    Probe { path: String },
    /// Make the file hold exactly `content`, creating it where it is not
    /// there.
    Write { path: String, content: String },
}

/// What a `FileAction` holds.
pub ghost enum FileOrder {
    Nothing,
    Probe { path: Seq<char> },
    Write { path: Seq<char>, content: Seq<char> },
}

impl View for FileAction {
    type V = FileOrder;

    open spec fn view(&self) -> FileOrder {
        match self {
            FileAction::Nothing => FileOrder::Nothing,
            FileAction::Probe { path } => FileOrder::Probe { path: path@ },
            FileAction::Write { path, content } => FileOrder::Write {
                path: path@,
                content: content@,
            },
        }
    }
}

/// Creates and modifies files, or, as a dry run, only checks that it could.
#[derive(Debug, Clone, Copy)]
pub struct FileHelper {
    dry_run: bool,
}

/// The complaint about a file that a dry run finds in its way.
pub open spec fn already_exists(path: Seq<char>) -> Seq<char> {
    path + " already exists"@
}

/// The complaint about a file that could not be created.
pub open spec fn not_created(path: Seq<char>) -> Seq<char> {
    path + " could not be created"@
}

/// The complaint about a file that could not be opened for writing.
pub open spec fn not_written(path: Seq<char>) -> Seq<char> {
    path + " could not be written"@
}

/// The complaint about a file to which writing failed.
pub open spec fn writing_failed(path: Seq<char>) -> Seq<char> {
    "Writing to "@ + path + " failed"@
}

/// What creating a file comes to, once its parent directories are there:
/// as a dry run, a complaint where the file exists and nothing to do where
/// it does not; for real, the writing of the content, whether or not the
/// file exists.
pub open spec fn creation(dry_run: bool, path: Seq<char>, content: Seq<char>, exists: bool) -> Result<
    FileOrder,
    Seq<char>,
> {
    if !dry_run {
        Ok(FileOrder::Write { path, content })
    } else if exists {
        Err(already_exists(path))
    } else {
        Ok(FileOrder::Nothing)
    }
}

/// What modifying a file comes to, once the modifier has seen its content:
/// nothing where the modifier gave no new content; else the writing of the
/// new content, or, as a dry run, only the check that it could be written.
pub open spec fn modification(dry_run: bool, path: Seq<char>, modified: Option<Seq<char>>) -> FileOrder {
    match modified {
        None => FileOrder::Nothing,
        Some(content) => if dry_run {
            FileOrder::Probe { path }
        } else {
            FileOrder::Write { path, content }
        },
    }
}

impl FileHelper {
    /// A helper that works for real, or as a dry run.
    pub fn new(dry_run: bool) -> (helper: FileHelper)
        ensures
            helper.is_dry_run() == dry_run,
    {
        FileHelper { dry_run }
    }

    /// Whether this helper only checks.
    pub closed spec fn is_dry_run(&self) -> bool {
        self.dry_run
    }

    /// Whether this helper only checks.
    pub fn dry_run(&self) -> (dry_run: bool)
        ensures
            dry_run == self.is_dry_run(),
    {
        self.dry_run
    }

    /// Decides what creating the file at `path` with `content` comes to.
    /// The caller has made the parent directories and says whether the file
    /// exists.
    pub fn create_file(&self, path: &str, content: &str, exists: bool) -> (decision: Result<
        FileAction,
        String,
    >)
        ensures
            match decision {
                Ok(action) => creation(self.is_dry_run(), path@, content@, exists) == Ok::<
                    FileOrder,
                    Seq<char>,
                >(action@),
                Err(complaint) => creation(self.is_dry_run(), path@, content@, exists) == Err::<
                    FileOrder,
                    Seq<char>,
                >(complaint@),
            },
    {
        if !self.dry_run {
            Ok(FileAction::Write { path: path.to_string(), content: content.to_string() })
        } else if exists {
            let mut complaint = String::from_str(path);
            complaint.append(" already exists");
            Err(complaint)
        } else {
            Ok(FileAction::Nothing)
        }
    }

    /// Decides what modifying the file at `path` comes to. `modified` is
    /// what the modifier made of the content of the file: the new content,
    /// or `None` where the file is to stay as it is.
    pub fn modify_file(&self, path: &str, modified: Option<String>) -> (action: FileAction)
        ensures
            action@ == modification(
                self.is_dry_run(),
                path@,
                match modified {
                    Some(content) => Some(content@),
                    None => None,
                },
            ),
    {
        match modified {
            None => FileAction::Nothing,
            Some(content) => if self.dry_run {
                FileAction::Probe { path: path.to_string() }
            } else {
                FileAction::Write { path: path.to_string(), content }
            },
        }
    }

    /// The complaint about a file that could not be created.
    pub fn not_created_message(path: &str) -> (complaint: String)
        ensures
            complaint@ == not_created(path@),
    {
        let mut complaint = String::from_str(path);
        complaint.append(" could not be created");
        complaint
    }

    /// The complaint about a file that could not be opened for writing.
    pub fn not_written_message(path: &str) -> (complaint: String)
        ensures
            complaint@ == not_written(path@),
    {
        let mut complaint = String::from_str(path);
        complaint.append(" could not be written");
        complaint
    }

    /// The complaint about a file to which writing failed.
    pub fn writing_failed_message(path: &str) -> (complaint: String)
        ensures
            complaint@ == writing_failed(path@),
    {
        let mut complaint = String::from_str("Writing to ");
        complaint.append(path);
        complaint.append(" failed");
        complaint
    }
}

} // verus!
