use vstd::prelude::*;

verus! {

/// Like `Display`, but the text is `'static` and nothing is allocated.
///
/// Every value has a description. See also [`OptionalDescription`].
pub trait Description {
    fn description(&self) -> &'static str;
}

/// Like [`Description`], for types where some values have nothing to say.
pub trait OptionalDescription {
    fn description(&self) -> Option<&'static str>;
}

} // verus!
