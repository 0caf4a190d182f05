//! Where uploaded files are kept on the local disk.

use vstd::prelude::*;

verus! {

/// The directory that holds uploaded files.
pub const SAVE_DIR: &'static str = "./tmp";

/// The path of a stored file: the directory, then the owner's id and the
/// file's name joined by a dash.
pub open spec fn local_filepath(prefix_id: Seq<char>, filename: Seq<char>) -> Seq<char> {
    "./tmp/"@ + prefix_id + "-"@ + filename
}

/// The local path under which the file `filename` of the record `face_info_id`
/// is stored.
pub fn get_local_filepath(face_info_id: &str, filename: &str) -> (r: String)
    ensures
        r@ == local_filepath(face_info_id@, filename@),
{
    let path = SAVE_DIR.to_owned();
    let path = path.concat("/");
    let path = path.concat(face_info_id);
    let path = path.concat("-");
    let path = path.concat(filename);
    proof {
        reveal_strlit("./tmp");
        reveal_strlit("/");
        reveal_strlit("./tmp/");
        assert("./tmp"@ + "/"@ =~= "./tmp/"@);
    }
    path
}

/// `name` with every space turned into an underscore.
pub open spec fn underscore_spaces(name: Seq<char>) -> Seq<char> {
    name.map_values(|c: char| if c == ' ' { '_' } else { c })
}

/// Relies on `str::replace`, which replaces every match of the pattern; a
/// one-character pattern and a one-character replacement leave every other
/// character in place.
#[verifier::external_body]
fn replace_spaces(name: &str) -> (r: String)
    ensures
        r@ == underscore_spaces(name@),
{
    name.replace(' ', "_")
}

/// The local path of an upload sent as `name` for the record `prefix_id`,
/// together with the name under which it is stored.
pub fn upload_target(prefix_id: &str, name: &str) -> (r: (String, String))
    ensures
        r.0@ == underscore_spaces(name@),
        r.1@ == local_filepath(prefix_id@, underscore_spaces(name@)),
{
    let filename = replace_spaces(name);
    let filepath = get_local_filepath(prefix_id, filename.as_str());
    (filename, filepath)
}

} // verus!
