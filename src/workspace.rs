//! Names in the scratch directory where each chunk is staged as a file that
//! the debugger reads by path.

use crate::text::{decimal_text, decimal_text_of, is_decimal_digit, lemma_decimal_text_digits};
use vstd::prelude::*;
use vstd::string::StringExecFns;

verus! {

/// The name of the scratch directory.
pub open spec fn workspace_dir_name() -> Seq<char> {
    "tmp_bin_chunks"@
}

/// A name that a path join appends as one plain component: it holds no `/`,
/// no `\` and no `:`, so it has neither a root nor a drive prefix, and it is
/// neither `.` nor `..`.
pub open spec fn plain_name(name: Seq<char>) -> bool {
    &&& forall|i: int|
        0 <= i < name.len() ==> #[trigger] name[i] != '/' && name[i] != '\\' && name[i] != ':'
    &&& name != seq!['.']
    &&& name != seq!['.', '.']
}

/// `dir` starts with a verbatim prefix (`\\?\`), under which a join
/// normalizes the whole path.
pub open spec fn verbatim_prefixed(dir: Seq<char>) -> bool {
    dir.len() >= 4 && dir.subrange(0, 4) == seq!['\\', '\\', '?', '\\']
}

/// `path` is `name` under `dir`: the two laid end to end, with at most one
/// path separator (`/` or `\`, as the platform has it) between them.
pub open spec fn joined_under(dir: Seq<char>, name: Seq<char>, path: Seq<char>) -> bool {
    ||| path == dir + name
    ||| exists|c: char| (c == '/' || c == '\\') && path == dir + seq![c] + name
}

/// The name of the file that holds chunk `index`: `chunk_<index>_.bin`.
pub open spec fn chunk_file_name_of(index: nat) -> Seq<char> {
    "chunk_"@ + decimal_text_of(index) + "_.bin"@
}

/// Relies on `Path::join` (`PathBuf::push`): a relative name without a prefix
/// is appended to `dir`, after the platform's separator where `dir` needs one.
/// Under a verbatim prefix (Windows) the joined path is normalized, so nothing
/// is stated there.
#[verifier::external_body]
fn join_path(dir: &str, name: &str) -> (r: String)
    requires
        plain_name(name@),
    ensures
        !verbatim_prefixed(dir@) ==> joined_under(dir@, name@, r@),
{
    std::path::Path::new(dir).join(name).to_string_lossy().into_owned()
}

/// The scratch directory under `base`, the directory that the tool works from.
pub fn get_abs_tmp_workspace_dir(base: &str) -> (r: String)
    ensures
        !verbatim_prefixed(base@) ==> joined_under(base@, workspace_dir_name(), r@),
{
    proof {
        reveal_strlit("tmp_bin_chunks");
        let w = workspace_dir_name();
        assert(w[0] == 't');
        assert(w != seq!['.']);
        assert(w != seq!['.', '.']);
    }
    join_path(base, "tmp_bin_chunks")
}

/// The name of the file that stages chunk `index`.
pub fn chunk_file_name(index: usize) -> (r: String)
    ensures
        r@ == chunk_file_name_of(index as nat),
{
    let mut r = String::from_str("chunk_");
    let d = decimal_text(index as u64);
    r.append(d.as_str());
    r.append("_.bin");
    r
}

/// The path of the file that stages chunk `index` in the scratch directory `dir`.
pub fn chunk_file_path(dir: &str, index: usize) -> (r: String)
    ensures
        !verbatim_prefixed(dir@) ==> joined_under(dir@, chunk_file_name_of(index as nat), r@),
{
    let name = chunk_file_name(index);
    proof {
        reveal_strlit("chunk_");
        reveal_strlit("_.bin");
        lemma_decimal_text_digits(index as nat);
        let d = decimal_text_of(index as nat);
        let s = chunk_file_name_of(index as nat);
        assert forall|i: int| 0 <= i < s.len() implies #[trigger] s[i] != '/' && s[i] != '\\'
            && s[i] != ':' by {
            if 6 <= i < 6 + d.len() {
                assert(s[i] == d[i - 6]);
                assert(is_decimal_digit(d[i - 6]));
            }
        }
        assert(s[0] == 'c');
        assert(s != seq!['.']);
        assert(s != seq!['.', '.']);
    }
    join_path(dir, name.as_str())
}

} // verus!
