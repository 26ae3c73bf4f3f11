//! The output artifact: the name of the output file and the concatenated
//! text written into it, one record per file of the flattened folder.
use vstd::prelude::*;

use crate::text::replace_char;
use crate::text::slashes_to_underscores;

verus! {

/// One record of the output: a header line naming the file's logical
/// path inside the repository, the file's content, and a blank-line
/// separator.
pub open spec fn record_spec(folder: Seq<char>, name: Seq<char>, content: Seq<char>) -> Seq<
    char,
> {
    "File: "@ + folder + "/"@ + name + "\n"@ + content + "\n\n"@
}

/// The whole output text: the records of the given files, in order.
pub open spec fn flatten_spec(folder: Seq<char>, files: Seq<(Seq<char>, Seq<char>)>) -> Seq<char>
    decreases files.len(),
{
    if files.len() == 0 {
        Seq::empty()
    } else {
        flatten_spec(folder, files.drop_last()) + record_spec(
            folder,
            files.last().0,
            files.last().1,
        )
    }
}

/// One output record for the file `name` with content `content`, under
/// the folder path `folder`.
pub fn file_record(folder: &str, name: &str, content: &str) -> (r: String)
    ensures
        r@ == record_spec(folder@, name@, content@),
{
    let mut r = String::from_str("File: ");
    r.append(folder);
    r.append("/");
    r.append(name);
    r.append("\n");
    r.append(content);
    r.append("\n\n");
    r
}

/// The concatenated output text for the files of one folder: for each
/// `(name, content)` pair, in order, a header line `File: <folder>/<name>`,
/// the content, and a blank-line separator.
pub fn flatten_folder(folder: &str, files: &Vec<(String, String)>) -> (r: String)
    ensures
        r@ == flatten_spec(folder@, files.deep_view()),
{
    let ghost all = files.deep_view();
    let mut r = String::new();
    assert(r@ =~= flatten_spec(folder@, all.subrange(0, 0)));
    let mut i: usize = 0;
    while i < files.len()
        invariant
            i <= files@.len(),
            all == files.deep_view(),
            r@ == flatten_spec(folder@, all.subrange(0, i as int)),
        decreases files@.len() - i,
    {
        let record = file_record(folder, files[i].0.as_str(), files[i].1.as_str());
        r.append(record.as_str());
        proof {
            let sub = all.subrange(0, i + 1);
            assert(sub.drop_last() =~= all.subrange(0, i as int));
            assert(sub.last() == all[i as int]);
            assert(r@ =~= flatten_spec(folder@, sub));
        }
        i = i + 1;
    }
    proof {
        assert(all.subrange(0, files@.len() as int) =~= all);
    }
    r
}

/// The name of the output file: the repository name and the folder path
/// with its slashes replaced by underscores, with a `.txt` extension.
pub open spec fn output_file_name_spec(repo: Seq<char>, folder: Seq<char>) -> Seq<char> {
    repo + "_"@ + replace_char(folder, '/', '_') + ".txt"@
}

/// The name of the output file for one run.
pub fn output_file_name(repo: &str, folder: &str) -> (r: String)
    ensures
        r@ == output_file_name_spec(repo@, folder@),
{
    let mut r = String::from_str(repo);
    r.append("_");
    let flat = slashes_to_underscores(folder);
    r.append(flat.as_str());
    r.append(".txt");
    r
}

} // verus!
