//! Classification of a declared MIME type into a storage category.

use vstd::prelude::*;
use vstd::string::StrSliceExecFns;

verus! {

broadcast use vstd::string::group_string_axioms;

/// The closed set of storage buckets. Every upload falls into exactly one;
/// a declared type the store does not recognize lands in `Unknown` rather
/// than being rejected.
#[derive(Clone, Copy, PartialEq, Eq, Structural, Debug)]
pub enum Category {
    Jpeg,
    Png,
    Gif,
    Webp,
    Unknown,
}

/// The category a declared MIME type maps to: an exact string match for
/// each of the four supported image types, everything else `Unknown`.
pub open spec fn spec_classify(declared: Seq<char>) -> Category {
    if declared == "image/jpeg"@ {
        Category::Jpeg
    } else if declared == "image/png"@ {
        Category::Png
    } else if declared == "image/gif"@ {
        Category::Gif
    } else if declared == "image/webp"@ {
        Category::Webp
    } else {
        Category::Unknown
    }
}

/// The name of the on-disk subdirectory that holds a category's files.
pub open spec fn spec_dir_name(c: Category) -> Seq<char> {
    match c {
        Category::Jpeg => seq!['J', 'P', 'G'],
        Category::Png => seq!['P', 'N', 'G'],
        Category::Gif => seq!['G', 'I', 'F'],
        Category::Webp => seq!['W', 'E', 'B', 'P'],
        Category::Unknown => seq!['U', 'n', 'd', 'e', 'f', 'i', 'n', 'e', 'd'],
    }
}

/// The filename extension used for a category's files.
pub open spec fn spec_extension(c: Category) -> Seq<char> {
    match c {
        Category::Jpeg => seq!['j', 'p', 'g'],
        Category::Png => seq!['p', 'n', 'g'],
        Category::Gif => seq!['g', 'i', 'f'],
        Category::Webp => seq!['w', 'e', 'b', 'p'],
        Category::Unknown => seq!['b', 'i', 'n'],
    }
}

/// Character-for-character string equality.
fn str_eq(a: &str, b: &str) -> (r: bool)
    ensures
        r == (a@ == b@),
{
    let a_len = a.unicode_len();
    let b_len = b.unicode_len();
    if a_len != b_len {
        return false;
    }
    let mut i: usize = 0;
    while i < a_len
        invariant
            a_len == a@.len(),
            a_len == b@.len(),
            i <= a_len,
            forall|j: int| 0 <= j < i ==> a@[j] == b@[j],
        decreases a_len - i,
    {
        if a.get_char(i) != b.get_char(i) {
            return false;
        }
        i += 1;
    }
    proof {
        assert(a@ =~= b@);
    }
    true
}

/// Maps a declared MIME type to its storage category. Total: unrecognized,
/// malformed and empty strings all classify as `Unknown`.
pub fn classify(declared: &str) -> (c: Category)
    ensures
        c == spec_classify(declared@),
{
    if str_eq(declared, "image/jpeg") {
        Category::Jpeg
    } else if str_eq(declared, "image/png") {
        Category::Png
    } else if str_eq(declared, "image/gif") {
        Category::Gif
    } else if str_eq(declared, "image/webp") {
        Category::Webp
    } else {
        Category::Unknown
    }
}

impl Category {
    /// The subdirectory this category's files are stored under.
    pub fn dir_name(&self) -> (r: &'static str)
        ensures
            r@ == spec_dir_name(*self),
    {
        proof {
            reveal_strlit("JPG");
            reveal_strlit("PNG");
            reveal_strlit("GIF");
            reveal_strlit("WEBP");
            reveal_strlit("Undefined");
        }
        let r = match *self {
            Category::Jpeg => "JPG",
            Category::Png => "PNG",
            Category::Gif => "GIF",
            Category::Webp => "WEBP",
            Category::Unknown => "Undefined",
        };
        proof {
            assert(r@ =~= spec_dir_name(*self));
        }
        r
    }

    /// The filename extension this category's files carry.
    pub fn extension(&self) -> (r: &'static str)
        ensures
            r@ == spec_extension(*self),
    {
        proof {
            reveal_strlit("jpg");
            reveal_strlit("png");
            reveal_strlit("gif");
            reveal_strlit("webp");
            reveal_strlit("bin");
        }
        let r = match *self {
            Category::Jpeg => "jpg",
            Category::Png => "png",
            Category::Gif => "gif",
            Category::Webp => "webp",
            Category::Unknown => "bin",
        };
        proof {
            assert(r@ =~= spec_extension(*self));
        }
        r
    }
}

} // verus!
