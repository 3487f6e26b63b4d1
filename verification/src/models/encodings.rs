//! The character encodings a listing page may come in.

use vstd::prelude::*;

verus! {

/// How the bytes of a page are turned into text.
#[derive(Clone, Copy, Debug, PartialEq, Eq, Structural)]
pub enum Encoding {
    Latin1,
    Utf8,
}

} // verus!
