use vstd::prelude::*;

verus! {

/// Where the photos outside any album are listed, relative to the export root.
pub const MISC_DATA_PATH: &'static str = "your_facebook_activity/posts/your_uncategorized_photos.json";

/// The directory that holds one document per album, relative to the export root.
pub const ALBUM_DIR_PATH: &'static str = "your_facebook_activity/posts/album";

/// `rel` placed under the directory `root`, with one `/` between them.
pub open spec fn joined(root: Seq<char>, rel: Seq<char>) -> Seq<char> {
    if root.len() == 0 {
        rel
    } else if root.last() == '/' {
        root + rel
    } else {
        root + seq!['/'] + rel
    }
}

/// Whether a file name's extension is exactly `json`: it ends in `.json`
/// and something stands before that dot.
pub open spec fn is_json_name(name: Seq<char>) -> bool {
    name.len() > 5 && name.subrange(name.len() - 5, name.len() as int) =~= seq!['.', 'j', 's', 'o', 'n']
}

/// Places the relative path `rel` under the directory `root`.
pub fn join_path(root: &str, rel: &str) -> (r: String)
    ensures
        r@ == joined(root@, rel@),
{
    let n = root.unicode_len();
    if n == 0 {
        return String::from_str(rel);
    }
    let mut out = String::from_str(root);
    if root.get_char(n - 1) != '/' {
        out.append("/");
        proof {
            reveal_strlit("/");
        }
    }
    out.append(rel);
    assert(out@ =~= joined(root@, rel@));
    out
}

/// The path of the document that lists the photos outside any album.
pub fn get_misc_photos_data(root: &str) -> (r: String)
    ensures
        r@ == joined(root@, MISC_DATA_PATH@),
{
    join_path(root, MISC_DATA_PATH)
}

/// The path of the directory that holds the album documents.
pub fn album_dir(root: &str) -> (r: String)
    ensures
        r@ == joined(root@, ALBUM_DIR_PATH@),
{
    join_path(root, ALBUM_DIR_PATH)
}

/// Whether the file `name` is an album document, by its extension.
pub fn has_json_extension(name: &str) -> (r: bool)
    ensures
        r == is_json_name(name@),
{
    let n = name.unicode_len();
    if n <= 5 {
        return false;
    }
    let r = name.get_char(n - 5) == '.' && name.get_char(n - 4) == 'j' && name.get_char(n - 3) == 's'
        && name.get_char(n - 2) == 'o' && name.get_char(n - 1) == 'n';
    assert(r == is_json_name(name@)) by {
        if r {
            assert(name@.subrange(n - 5, n as int) =~= seq!['.', 'j', 's', 'o', 'n']);
        } else if is_json_name(name@) {
            assert(name@.subrange(n - 5, n as int)[0] == '.');
            assert(name@.subrange(n - 5, n as int)[1] == 'j');
            assert(name@.subrange(n - 5, n as int)[2] == 's');
            assert(name@.subrange(n - 5, n as int)[3] == 'o');
            assert(name@.subrange(n - 5, n as int)[4] == 'n');
        }
    }
    r
}

/// The album documents among the entries of the album directory: exactly
/// the names whose extension is `json`, in the order given.
pub fn select_album_files(names: &Vec<String>) -> (r: Vec<String>)
    ensures
        r@ == names@.filter(|s: String| is_json_name(s@)),
{
    let mut out: Vec<String> = Vec::new();
    let mut i: usize = 0;
    while i < names.len()
        invariant
            i <= names@.len(),
            out@ == names@.subrange(0, i as int).filter(|s: String| is_json_name(s@)),
        decreases names@.len() - i,
    {
        let name = &names[i];
        let text: &str = name.as_str();
        let keep = has_json_extension(text);
        if keep {
            out.push(name.clone());
        }
        proof {
            let done = names@.subrange(0, i + 1);
            assert(done.drop_last() =~= names@.subrange(0, i as int));
            assert(done.last() == names@[i as int]);
            reveal(Seq::filter);
            assert(is_json_name(done.last()@) == keep);
            assert(out@ =~= done.filter(|s: String| is_json_name(s@)));
        }
        i = i + 1;
    }
    assert(names@.subrange(0, names@.len() as int) =~= names@);
    out
}

} // verus!
