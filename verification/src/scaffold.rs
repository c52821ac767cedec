//! Naming a new book project: its zero-padded folder, its path, and the
//! commit that records it.
use vstd::prelude::*;
use crate::text::{decimal_i32, signed_decimal_text};

verus! {

/// How many arguments the tool takes, its own name included.
pub const EXPECTED_ARG_COUNT: usize = 4;

/// `n` zeros.
pub open spec fn zeros(n: nat) -> Seq<char> {
    Seq::new(n, |i: int| '0')
}

/// The folder of a project: `page-`, the page number padded with
/// `padding` zeros, `-`, and the project's name.
pub open spec fn folder_text(padding: nat, project_page: int, project_name: Seq<char>) -> Seq<char> {
    "page-"@ + zeros(padding) + signed_decimal_text(project_page) + "-"@ + project_name
}

/// The usage line the tool prints before it gives up.
pub fn usage() -> (s: String)
    ensures
        s@ == "\nusage: ./setup-coding <lastPage> <projectName> <projectPage>"@,
{
    String::from_str("\nusage: ./setup-coding <lastPage> <projectName> <projectPage>")
}

/// The folder for `project_page` padded with `padding` zeros, so that its
/// number has as many digits as the last page's.
pub fn project_folder(padding: i32, project_page: i32, project_name: &str) -> (s: String)
    requires
        padding >= 0,
    ensures
        s@ == folder_text(padding as nat, project_page as int, project_name@),
{
    let mut s = String::from_str("page-");
    let mut k: i32 = 0;
    while k < padding
        invariant
            0 <= k <= padding,
            s@ =~= "page-"@ + zeros(k as nat),
        decreases padding - k,
    {
        s.append("0");
        proof {
            reveal_strlit("0");
            assert("0"@ =~= seq!['0']);
            assert(zeros((k + 1) as nat) =~= zeros(k as nat) + "0"@);
        }
        k += 1;
    }
    let number = decimal_i32(project_page);
    s.append(number.as_str());
    s.append("-");
    s.append(project_name);
    s
}

/// The folder name is `page-`, then exactly `padding` zeros, then the page
/// number, then `-` and the whole project name: it ends with the name, its
/// length is the sum of its parts, and the page number stands right after the
/// zeros.
pub proof fn lemma_folder_layout(padding: nat, project_page: int, project_name: Seq<char>)
    ensures
        ({
            let f = folder_text(padding, project_page, project_name);
            let digits = signed_decimal_text(project_page);
            &&& f.len() == 5 + padding + digits.len() + 1 + project_name.len()
            &&& f.take(5) == seq!['p', 'a', 'g', 'e', '-']
            &&& forall|i: int| 5 <= i < 5 + padding as int ==> #[trigger] f[i] == '0'
            &&& f.subrange(5 + padding as int, 5 + padding + digits.len() as int) == digits
            &&& f[5 + padding + digits.len() as int] == '-'
            &&& f.skip(f.len() - project_name.len()) == project_name
        }),
{
    reveal_strlit("page-");
    reveal_strlit("-");
    let f = folder_text(padding, project_page, project_name);
    let digits = signed_decimal_text(project_page);
    let head = "page-"@ + zeros(padding);
    assert("page-"@ =~= seq!['p', 'a', 'g', 'e', '-']);
    assert("-"@ =~= seq!['-']);
    assert(f =~= head + digits + seq!['-'] + project_name);
    assert(f.take(5) =~= seq!['p', 'a', 'g', 'e', '-']);
    assert(f.subrange(5 + padding as int, 5 + padding + digits.len() as int) =~= digits);
    assert(f.skip(f.len() - project_name.len()) =~= project_name);
}

/// Where the project's folder goes, relative to the tool.
pub fn project_path(folder: &str) -> (s: String)
    ensures
        s@ == "../projects/"@ + folder@,
{
    let mut s = String::from_str("../projects/");
    s.append(folder);
    s
}

/// The message of the commit that adds the project.
pub fn commit_message(folder: &str) -> (s: String)
    ensures
        s@ == "cargo new "@ + folder@,
{
    let mut s = String::from_str("cargo new ");
    s.append(folder);
    s
}

/// What the tool prints when the project's folder is already there.
pub fn already_exists_message(path: &str) -> (s: String)
    ensures
        s@ == path@ + " already exists"@,
{
    let mut s = String::from_str(path);
    s.append(" already exists");
    s
}

} // verus!
