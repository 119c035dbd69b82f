//! Wrapper `Cow<'_, str>` for deserializing without allocation.

use std::borrow::Cow;
use vstd::prelude::*;

verus! {

/// Wrapper `Cow<'_, str>` for deserializing without allocation.
#[derive(Default)]
pub struct CowStr<'a>(Cow<'a, str>);

impl<'a> View for CowStr<'a> {
    type V = Seq<char>;

    closed spec fn view(&self) -> Seq<char> {
        self.0@
    }
}

impl<'a> CowStr<'a> {
    /// Convert into `Cow<'a, str>`.
    pub fn into_inner(self) -> (r: Cow<'a, str>)
        ensures
            r@ == self@,
            (r is Borrowed) == self.spec_is_borrowed(),
    {
        self.0
    }

    /// Wraps a `Cow<'a, str>`.
    pub fn new(value: Cow<'a, str>) -> (r: CowStr<'a>)
        ensures
            r@ == value@,
            r.spec_is_borrowed() == (value is Borrowed),
    {
        CowStr(value)
    }

    /// Whether the text is borrowed from the input rather than owned.
    pub closed spec fn spec_is_borrowed(&self) -> bool {
        self.0 is Borrowed
    }

    /// Whether the text is borrowed from the input rather than owned.
    pub fn is_borrowed(&self) -> (r: bool)
        ensures
            r == self.spec_is_borrowed(),
    {
        match &self.0 {
            Cow::Borrowed(_) => true,
            Cow::Owned(_) => false,
        }
    }

    /// A string that the input lends for as long as the value lives: it is
    /// kept borrowed, without allocation.
    pub fn from_borrowed_str(value: &'a str) -> (r: CowStr<'a>)
        ensures
            r@ == value@,
            r.spec_is_borrowed(),
    {
        CowStr(Cow::Borrowed(value))
    }

    /// A string that the input lends only for a while: it is copied.
    pub fn from_transient_str(value: &str) -> (r: CowStr<'a>)
        ensures
            r@ == value@,
            !r.spec_is_borrowed(),
    {
        CowStr(Cow::Owned(value.to_owned()))
    }

    /// A string that the input hands over: it is kept, owned.
    pub fn from_string(value: String) -> (r: CowStr<'a>)
        ensures
            r@ == value@,
            !r.spec_is_borrowed(),
    {
        CowStr(Cow::Owned(value))
    }

    /// The text, borrowed.
    pub fn as_str(&self) -> (r: &str)
        ensures
            r@ == self@,
    {
        match &self.0 {
            Cow::Borrowed(s) => s,
            Cow::Owned(s) => s.as_str(),
        }
    }
}

impl<'a> From<Cow<'a, str>> for CowStr<'a> {
    fn from(value: Cow<'a, str>) -> (r: Self)
        ensures
            r@ == value@,
            r.spec_is_borrowed() == (value is Borrowed),
    {
        CowStr(value)
    }
}

impl<'a> vstd::std_specs::convert::FromSpecImpl<Cow<'a, str>> for CowStr<'a> {
    open spec fn obeys_from_spec() -> bool {
        true
    }

    closed spec fn from_spec(v: Cow<'a, str>) -> Self {
        CowStr(v)
    }
}

impl<'a> From<CowStr<'a>> for Cow<'a, str> {
    fn from(value: CowStr<'a>) -> (r: Self)
        ensures
            r@ == value@,
            (r is Borrowed) == value.spec_is_borrowed(),
    {
        value.0
    }
}

impl<'a> vstd::std_specs::convert::FromSpecImpl<CowStr<'a>> for Cow<'a, str> {
    open spec fn obeys_from_spec() -> bool {
        true
    }

    closed spec fn from_spec(v: CowStr<'a>) -> Self {
        v.0
    }
}

} // verus!
