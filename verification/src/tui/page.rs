//! The pages of the dashboard.

use vstd::prelude::*;
use crate::text::chars::owned;
use crate::text::decimal::{decimal, decimal_text};

verus! {

/// A page of the dashboard.
#[derive(Clone, Copy, Debug, PartialEq, Eq, Structural)]
pub enum Page {
    Overview,
    Gateway,
    Guilds,
    Users,
    Events,
    Env,
    Actions,
}

impl Page {
    /// How many pages there are.
    pub open spec fn count() -> nat {
        7
    }

    /// The place of the page among all pages.
    pub open spec fn place(self) -> nat {
        match self {
            Page::Overview => 0,
            Page::Gateway => 1,
            Page::Guilds => 2,
            Page::Users => 3,
            Page::Events => 4,
            Page::Env => 5,
            Page::Actions => 6,
        }
    }

    /// The page at a place, counted around.
    pub open spec fn at(place: nat) -> Page {
        let place = place % Page::count();
        if place == 0 {
            Page::Overview
        } else if place == 1 {
            Page::Gateway
        } else if place == 2 {
            Page::Guilds
        } else if place == 3 {
            Page::Users
        } else if place == 4 {
            Page::Events
        } else if place == 5 {
            Page::Env
        } else {
            Page::Actions
        }
    }

    /// The page after this one; the first after the last.
    pub open spec fn following(self) -> Page {
        Page::at(self.place() + 1)
    }

    /// The page before this one; the last before the first.
    pub open spec fn preceding(self) -> Page {
        Page::at((self.place() + Page::count() - 1) as nat)
    }

    /// The title of the page.
    pub open spec fn name(self) -> Seq<char> {
        match self {
            Page::Overview => "Overview"@,
            Page::Gateway => "Gateway"@,
            Page::Guilds => "Guilds"@,
            Page::Users => "Users"@,
            Page::Events => "Events"@,
            Page::Env => "Env"@,
            Page::Actions => "Actions"@,
        }
    }

    /// The title of the page.
    pub fn title(self) -> (r: &'static str)
        ensures
            r@ == self.name(),
    {
        match self {
            Page::Overview => "Overview",
            Page::Gateway => "Gateway",
            Page::Guilds => "Guilds",
            Page::Users => "Users",
            Page::Events => "Events",
            Page::Env => "Env",
            Page::Actions => "Actions",
        }
    }

    /// All pages, in their order.
    pub fn all() -> (r: Vec<Page>)
        ensures
            r@ == Seq::new(Page::count(), |i: int| Page::at(i as nat)),
    {
        let pages: Vec<Page> = vec![
            Page::Overview,
            Page::Gateway,
            Page::Guilds,
            Page::Users,
            Page::Events,
            Page::Env,
            Page::Actions,
        ];
        assert(pages@ =~= Seq::new(Page::count(), |i: int| Page::at(i as nat)));
        pages
    }

    /// The place of the page among all pages.
    pub fn position(self) -> (r: usize)
        ensures
            r == self.place(),
    {
        match self {
            Page::Overview => 0,
            Page::Gateway => 1,
            Page::Guilds => 2,
            Page::Users => 3,
            Page::Events => 4,
            Page::Env => 5,
            Page::Actions => 6,
        }
    }

    /// The page after this one; the first after the last.
    pub fn next(self) -> (r: Page)
        ensures
            r == self.following(),
    {
        let pages: Vec<Page> = Page::all();
        pages[(self.position() + 1) % pages.len()]
    }

    /// The page before this one; the last before the first.
    pub fn prev(self) -> (r: Page)
        ensures
            r == self.preceding(),
    {
        let pages: Vec<Page> = Page::all();
        pages[(self.position() + pages.len() - 1) % pages.len()]
    }

    /// The label of the page in the header: its number and its title.
    pub open spec fn label(self) -> Seq<char> {
        " "@ + decimal(self.place() + 1) + " "@ + self.name()
    }
}

/// The labels of all pages, for the header.
pub fn header_labels() -> (r: Vec<String>)
    ensures
        r@.len() == Page::count(),
        forall|i: int| 0 <= i < r@.len() ==> #[trigger] r@[i]@ == Page::at(i as nat).label(),
{
    let pages: Vec<Page> = Page::all();
    let mut out: Vec<String> = Vec::new();
    let mut i: usize = 0;
    while i < pages.len()
        invariant
            i <= pages@.len(),
            pages@ == Seq::new(Page::count(), |i: int| Page::at(i as nat)),
            out@.len() == i,
            forall|j: int| 0 <= j < i ==> #[trigger] out@[j]@ == Page::at(j as nat).label(),
        decreases pages@.len() - i,
    {
        let page: Page = pages[i];
        let number: String = decimal_text(page.position() as u128 + 1);
        let mut label: String = owned(" ");
        label.append(number.as_str());
        label.append(" ");
        label.append(page.title());
        out.push(label);
        i = i + 1;
    }
    out
}

/// Each page is found at its place.
pub proof fn lemma_place(page: Page)
    ensures
        Page::at(page.place()) == page,
        page.place() < Page::count(),
{
}

/// Going on and going back undo each other.
pub proof fn lemma_there_and_back(page: Page)
    ensures
        page.following().preceding() == page,
        page.preceding().following() == page,
{
}

/// The page that is so many pages further on.
pub open spec fn further(page: Page, steps: nat) -> Page
    decreases steps,
{
    if steps == 0 {
        page
    } else {
        further(page, (steps - 1) as nat).following()
    }
}

/// Going on leads to the page at the place that is so many places further.
pub proof fn lemma_further(page: Page, steps: nat)
    ensures
        further(page, steps) == Page::at(page.place() + steps),
    decreases steps,
{
    if steps > 0 {
        let place = (page.place() + steps - 1) as nat;
        lemma_further(page, (steps - 1) as nat);
        assert(Page::at(place).place() == place % 7);
        assert((place % 7 + 1) % 7 == (place + 1) % 7);
        assert(place + 1 == page.place() + steps);
    }
}

/// After as many steps as there are pages, the page is the same.
pub proof fn lemma_goes_around(page: Page)
    ensures
        further(page, Page::count()) == page,
{
    lemma_further(page, Page::count());
}

} // verus!
