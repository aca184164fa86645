use vstd::prelude::*;

verus! {

/// The file name of a qlog trace: `<role>-<id>.sqlog`.
pub open spec fn qlog_name_text(role: Seq<char>, id: Seq<char>) -> Seq<char> {
    role + "-"@ + id + ".sqlog"@
}

/// Builds the file name under which a qlog trace for the connection `id`,
/// seen from `role` (such as `"client"`), is written.
pub fn qlog_file_name(role: &str, id: &str) -> (res: String)
    ensures
        res@ == qlog_name_text(role@, id@),
        res@ == role@ + "-"@ + id@ + ".sqlog"@,
{
    let mut s = String::from_str(role);
    s.append("-");
    s.append(id);
    s.append(".sqlog");
    s
}

} // verus!
