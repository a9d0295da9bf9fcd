use vstd::prelude::*;
use crate::paths::{extension_of, path_extension};

verus! {

/// The extensions of the files that are worth precompressing.
pub open spec fn eligible_extensions() -> Seq<Seq<char>> {
    seq![
        "atom"@, "conf"@, "css"@, "eot"@, "htm"@, "html"@, "js"@, "json"@,
        "jsx"@, "md"@, "otf"@, "rss"@, "scss"@, "sitemap"@, "svg"@, "text"@,
        "ts"@, "tsx"@, "ttf"@, "txt"@, "wasm"@, "xml"@, "yaml"@,
    ]
}

/// A path is eligible when it has an extension that is, exactly and with
/// the same case, one of the eligible extensions.
pub open spec fn is_eligible_path(path: Seq<char>) -> bool {
    match extension_of(path) {
        Some(ext) => eligible_extensions().contains(ext),
        None => false,
    }
}

fn extension_table() -> (r: Vec<&'static str>)
    ensures
        r@.len() == eligible_extensions().len(),
        forall|i: int| 0 <= i < r@.len() ==> #[trigger] r@[i]@ == eligible_extensions()[i],
{
    vec![
        "atom", "conf", "css", "eot", "htm", "html", "js", "json",
        "jsx", "md", "otf", "rss", "scss", "sitemap", "svg", "text",
        "ts", "tsx", "ttf", "txt", "wasm", "xml", "yaml",
    ]
}

/// Whether `ext` is, exactly and with the same case, an eligible extension.
pub fn is_eligible_extension(ext: &str) -> (r: bool)
    ensures
        r == eligible_extensions().contains(ext@),
{
    let table = extension_table();
    let wanted = ext.to_owned();
    let mut i: usize = 0;
    while i < table.len()
        invariant
            i <= table@.len(),
            table@.len() == eligible_extensions().len(),
            forall|k: int| 0 <= k < table@.len() ==> #[trigger] table@[k]@ == eligible_extensions()[k],
            wanted@ == ext@,
            forall|k: int| 0 <= k < i ==> eligible_extensions()[k] != ext@,
        decreases table@.len() - i,
    {
        let candidate = table[i].to_owned();
        if wanted == candidate {
            assert(eligible_extensions()[i as int] == ext@);
            return true;
        }
        i = i + 1;
    }
    false
}

/// Whether the file at `path` is a candidate for compression, judged by its
/// extension alone.
pub fn should_compress(path: &str) -> (r: bool)
    ensures
        r == is_eligible_path(path@),
{
    match path_extension(path) {
        Some(ext) => is_eligible_extension(ext.as_str()),
        None => false,
    }
}

} // verus!
