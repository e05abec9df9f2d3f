use vstd::prelude::*;
use crate::config::ConfigError;
use crate::method::text_eq;

verus! {

/// The text of a job definition file, tagged with its format.
#[derive(Clone, Debug)]
pub enum FileContent {
    Json(String),
    Yaml(String),
    Yml(String),
    /// No definition file was found.
    NotFound,
}

/// What `Path::extension` gives for a path, as text.
pub uninterp spec fn extension_of(path: Seq<char>) -> Option<Seq<char>>;

/// Relies on `std::path::Path::extension`: the part of the file name after its last `.`,
/// as a function of the path text alone.
#[verifier::external_body]
fn path_extension(file: &str) -> (r: Option<&str>)
    ensures
        match r {
            Some(e) => extension_of(file@) == Some(e@),
            None => extension_of(file@) is None,
        },
{
    std::path::Path::new(file).extension().and_then(|ext| ext.to_str())
}

/// The extension of a file path, if it has one.
pub fn get_file_extension(file: &str) -> (r: Option<&str>)
    ensures
        match r {
            Some(e) => extension_of(file@) == Some(e@),
            None => extension_of(file@) is None,
        },
{
    path_extension(file)
}

pub open spec fn format_of(ext: Option<Seq<char>>, content: String) -> FileContent {
    match ext {
        Some(e) => if e == seq!['y', 'a', 'm', 'l'] {
            FileContent::Yaml(content)
        } else if e == seq!['y', 'm', 'l'] {
            FileContent::Yml(content)
        } else {
            FileContent::Json(content)
        },
        None => FileContent::Json(content),
    }
}

impl FileContent {
    pub fn new_none() -> (r: FileContent)
        ensures
            r is NotFound,
    {
        FileContent::NotFound
    }

    /// Tags a file's text by the file's extension: `yaml` and `yml` are YAML, anything
    /// else is read as JSON.
    pub fn from(content: String, file: &str) -> (r: FileContent)
        ensures
            r == format_of(extension_of(file@), content),
    {
        proof {
            reveal_strlit("yaml");
            reveal_strlit("yml");
            assert("yaml"@ =~= seq!['y', 'a', 'm', 'l']);
            assert("yml"@ =~= seq!['y', 'm', 'l']);
        }
        match get_file_extension(file) {
            Some(e) => if text_eq(e, "yaml") {
                FileContent::Yaml(content)
            } else if text_eq(e, "yml") {
                FileContent::Yml(content)
            } else {
                FileContent::Json(content)
            },
            None => FileContent::Json(content),
        }
    }
}

/// The candidate definition files, in the order they are looked for.
pub fn jobs_file_names() -> (r: Vec<&'static str>)
    ensures
        r@.len() == 3,
        r@[0]@ == seq!['.', '/', 'j', 'o', 'b', 's', '.', 'j', 's', 'o', 'n'],
        r@[1]@ == seq!['.', '/', 'j', 'o', 'b', 's', '.', 'y', 'a', 'm', 'l'],
        r@[2]@ == seq!['.', '/', 'j', 'o', 'b', 's', '.', 'y', 'm', 'l'],
{
    proof {
        reveal_strlit("./jobs.json");
        reveal_strlit("./jobs.yaml");
        reveal_strlit("./jobs.yml");
        assert("./jobs.json"@ =~= seq!['.', '/', 'j', 'o', 'b', 's', '.', 'j', 's', 'o', 'n']);
        assert("./jobs.yaml"@ =~= seq!['.', '/', 'j', 'o', 'b', 's', '.', 'y', 'a', 'm', 'l']);
        assert("./jobs.yml"@ =~= seq!['.', '/', 'j', 'o', 'b', 's', '.', 'y', 'm', 'l']);
    }
    vec!["./jobs.json", "./jobs.yaml", "./jobs.yml"]
}

pub open spec fn count_present(present: Seq<bool>) -> nat
    decreases present.len(),
{
    if present.len() == 0 {
        0
    } else {
        count_present(present.drop_last()) + if present.last() {
            1nat
        } else {
            0nat
        }
    }
}

/// Picks the one definition file that exists among the candidates: an error when none
/// or more than one does.
pub fn select_jobs_file(present: &Vec<bool>) -> (r: Result<usize, ConfigError>)
    ensures
        count_present(present@) == 0 <==> r == Err::<usize, ConfigError>(ConfigError::NoJobsFile),
        count_present(present@) > 1 <==> r == Err::<usize, ConfigError>(
            ConfigError::MultipleJobsFiles,
        ),
        count_present(present@) == 1 <==> r is Ok,
        r matches Ok(i) ==> i < present@.len() && present@[i as int],
{
    let mut found: Option<usize> = None;
    let mut i: usize = 0;
    while i < present.len()
        invariant
            i <= present@.len(),
            found is None <==> count_present(present@.subrange(0, i as int)) == 0,
            found is Some ==> count_present(present@.subrange(0, i as int)) == 1,
            found matches Some(k) ==> k < i && present@[k as int],
        decreases present@.len() - i,
    {
        assert(present@.subrange(0, i + 1).drop_last() =~= present@.subrange(0, i as int));
        if present[i] {
            if found.is_some() {
                proof {
                    lemma_count_grows(present@, i as int + 1);
                }
                return Err(ConfigError::MultipleJobsFiles);
            }
            found = Some(i);
        }
        i = i + 1;
    }
    assert(present@.subrange(0, i as int) =~= present@);
    match found {
        Some(k) => Ok(k),
        None => Err(ConfigError::NoJobsFile),
    }
}

proof fn lemma_count_grows(s: Seq<bool>, n: int)
    requires
        0 <= n <= s.len(),
    ensures
        count_present(s) >= count_present(s.subrange(0, n)),
    decreases s.len() - n,
{
    if n < s.len() {
        lemma_count_grows(s, n + 1);
        assert(s.subrange(0, n + 1).drop_last() =~= s.subrange(0, n));
    } else {
        assert(s.subrange(0, n) =~= s);
    }
}

} // verus!
