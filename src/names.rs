use vstd::prelude::*;
use vstd::string::*;

verus! {

/// The file that holds the configuration `name` in the directory `dir`.
pub open spec fn config_file_spec(dir: Seq<char>, name: Seq<char>) -> Seq<char> {
    dir + "/"@ + name + ".json"@
}

/// The configuration name that a file name stands for: the part before a
/// final `.json`, where that part is not empty.
pub open spec fn config_name_spec(file_name: Seq<char>) -> Option<Seq<char>> {
    if file_name.len() > 5 && file_name.subrange(file_name.len() - 5, file_name.len() as int) == ".json"@ {
        Some(file_name.subrange(0, file_name.len() - 5))
    } else {
        None
    }
}

/// The path of the file that holds the configuration `name` in `dir`.
pub fn config_file(dir: &str, name: &str) -> (r: String)
    ensures
        r@ == config_file_spec(dir@, name@),
{
    let mut r = String::from_str(dir);
    r.append("/");
    r.append(name);
    r.append(".json");
    r
}

/// The configuration name of a directory entry, if it names one.
pub fn config_name_of(file_name: &str) -> (r: Option<String>)
    ensures
        match r {
            Some(s) => config_name_spec(file_name@) == Some(s@),
            None => config_name_spec(file_name@) is None,
        },
{
    let n = file_name.unicode_len();
    if n <= 5 {
        return None;
    }
    let tail = String::from_str(file_name.substring_char(n - 5, n));
    let ext = String::from_str(".json");
    if tail == ext {
        Some(String::from_str(file_name.substring_char(0, n - 5)))
    } else {
        None
    }
}

} // verus!
