use vstd::prelude::*;

verus! {

/// What a dashboard card shows, and where it leads if anywhere.
pub struct CardConfig<'a> {
    pub title: &'a str,
    pub icon: &'a str,
    pub description: &'a str,
    pub href: Option<&'a str>,
}

} // verus!
