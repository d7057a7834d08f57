//! Requests that are turned away.
use vstd::prelude::*;

verus! {

/// Why a request is turned away, with the text for whoever made it.
#[derive(Debug, PartialEq, Eq)]
pub enum Refusal {
    NotFound(String),
    Forbidden(String),
}

pub enum RefusalView {
    NotFound(Seq<char>),
    Forbidden(Seq<char>),
}

impl View for Refusal {
    type V = RefusalView;

    open spec fn view(&self) -> RefusalView {
        match self {
            Refusal::NotFound(reason) => RefusalView::NotFound(reason@),
            Refusal::Forbidden(reason) => RefusalView::Forbidden(reason@),
        }
    }
}

/// A refusal is seen whole: its kind and its text.
pub proof fn law_refusal_is_viewed_whole(refusal: Refusal)
    ensures
        match refusal {
            Refusal::NotFound(reason) => refusal@ == RefusalView::NotFound(reason@),
            Refusal::Forbidden(reason) => refusal@ == RefusalView::Forbidden(reason@),
        },
{
}

} // verus!
