use vstd::prelude::*;

verus! {

/// The extension that the file-open dialog filters on.
pub const DATA_FILE_EXTENSION: &'static str = "dat";

/// What the file-open dialog gave back.
#[derive(Debug)]
pub enum DialogResponse {
    /// One file was chosen.
    Okay(String),
    /// Several files were chosen.
    OkayMultiple(Vec<String>),
    /// The dialog was dismissed.
    Cancel,
}

/// The text that `{:?}` writes for a string: quoted and escaped.
pub uninterp spec fn debug_str_text(s: Seq<char>) -> Seq<char>;

/// The `{:?}` texts of the strings of a list, separated by `, `.
pub open spec fn joined_debug_texts(s: Seq<Seq<char>>) -> Seq<char>
    decreases s.len(),
{
    if s.len() == 0 {
        Seq::empty()
    } else if s.len() == 1 {
        debug_str_text(s[0])
    } else {
        joined_debug_texts(s.drop_last()) + ", "@ + debug_str_text(s.last())
    }
}

/// The text that `{:?}` writes for a list of strings: the strings' own
/// `{:?}` texts, separated by `, ` and within brackets.
pub open spec fn debug_list_text(s: Seq<Seq<char>>) -> Seq<char> {
    "["@ + joined_debug_texts(s) + "]"@
}

/// The characters of each path of a list.
pub open spec fn path_texts(v: Seq<String>) -> Seq<Seq<char>> {
    v.map_values(|p: String| p@)
}

/// The line that reports one chosen file, from the file's `{:?}` text.
pub open spec fn file_path_text(d: Seq<char>) -> Seq<char> {
    "File Path = "@ + d
}

/// The line that reports several chosen files, from the list's `{:?}` text.
pub open spec fn files_text(d: Seq<char>) -> Seq<char> {
    "Files "@ + d
}

/// The line reported for a response of the dialog.
pub open spec fn message_of(r: DialogResponse) -> Seq<char> {
    match r {
        DialogResponse::Okay(p) => file_path_text(debug_str_text(p@)),
        DialogResponse::OkayMultiple(v) => files_text(debug_list_text(path_texts(v@))),
        DialogResponse::Cancel => "User canceled"@,
    }
}

/// Relies on std's `Debug` for `str`, through `format!("{:?}")`; the text
/// depends on the characters alone.
#[verifier::external_body]
fn debug_str(s: &str) -> (r: String)
    ensures
        r@ == debug_str_text(s@),
{
    format!("{:?}", s)
}

/// The `{:?}` text of a list of paths.
fn debug_list(v: &Vec<String>) -> (r: String)
    ensures
        r@ == debug_list_text(path_texts(v@)),
{
    let ghost texts = path_texts(v@);
    let mut r = String::from_str("[");
    let mut i: usize = 0;
    while i < v.len()
        invariant
            i <= v@.len(),
            texts == path_texts(v@),
            r@ == "["@ + joined_debug_texts(texts.take(i as int)),
        decreases v@.len() - i,
    {
        let ghost before = r@;
        if i > 0 {
            r.append(", ");
        }
        let d = debug_str(v[i].as_str());
        r.append(d.as_str());
        proof {
            let t = texts.take(i as int + 1);
            assert(t.drop_last() =~= texts.take(i as int));
            assert(t.last() == v@[i as int]@);
            if i == 0 {
                assert(t.len() == 1);
                assert(r@ =~= "["@ + joined_debug_texts(t));
            } else {
                assert(r@ =~= "["@ + joined_debug_texts(t));
            }
        }
        i = i + 1;
    }
    assert(texts.take(v@.len() as int) =~= texts);
    r.append("]");
    r
}

/// The line that reports one chosen file, given the file's `{:?}` text.
pub fn file_path_line(d: &str) -> (m: String)
    ensures
        m@ == file_path_text(d@),
{
    let mut m = String::from_str("File Path = ");
    m.append(d);
    m
}

/// The line that reports several chosen files, given the list's `{:?}` text.
pub fn files_line(d: &str) -> (m: String)
    ensures
        m@ == files_text(d@),
{
    let mut m = String::from_str("Files ");
    m.append(d);
    m
}

/// The line that reports what the dialog gave back.
pub fn response_message(r: &DialogResponse) -> (m: String)
    ensures
        m@ == message_of(*r),
{
    match r {
        DialogResponse::Okay(p) => {
            let d = debug_str(p.as_str());
            file_path_line(d.as_str())
        },
        DialogResponse::OkayMultiple(v) => {
            let d = debug_list(v);
            files_line(d.as_str())
        },
        DialogResponse::Cancel => String::from_str("User canceled"),
    }
}

} // verus!
