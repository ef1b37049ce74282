use vstd::prelude::*;

use crate::counter::Counter;
use crate::pagination::PAGE_MAX;
use crate::pagination::PageIndex;
use crate::tags::FetchError;
use crate::tags::TagWidget;
use crate::tags::WidgetView;
use crate::tags::spec_widget_view;

verus! {

/// Where a path leads: the empty path is the one real route, the home
/// page; every other path falls back to the not-found page.
#[derive(Clone, Copy, Debug, PartialEq, Eq, Structural)]
pub enum Route {
    Home,
    NotFound,
}

/// Resolve a path to a route.
pub fn route(path: &str) -> (r: Route)
    ensures
        r is Home <==> path@.len() == 0,
{
    if path.is_empty() {
        Route::Home
    } else {
        Route::NotFound
    }
}

/// The remote tag source, stubbed: a nullary operation that always
/// succeeds with a fixed, ordered list of labels. Its result type still
/// carries the error case, so a caller's failure path stays reachable.
pub fn tag_list_action() -> (r: Result<Vec<String>, FetchError>)
    ensures
        r is Ok,
        r->Ok_0@.len() == 5,
        r->Ok_0@[0]@ == "Hello"@,
        r->Ok_0@[1]@ == "brave"@,
        r->Ok_0@[2]@ == "and"@,
        r->Ok_0@[3]@ == "courageous"@,
        r->Ok_0@[4]@ == "world"@,
{
    let mut tags: Vec<String> = Vec::new();
    tags.push("Hello".to_owned());
    tags.push("brave".to_owned());
    tags.push("and".to_owned());
    tags.push("courageous".to_owned());
    tags.push("world".to_owned());
    Ok(tags)
}

/// The home page: a bounded page index, an unbounded display counter,
/// and the tag-selection widget, each owned by the page and mutated only
/// through its own actions. The three are independent: no action of one
/// touches another.
pub struct HomePage {
    pub page: PageIndex,
    pub counter: Counter,
    pub tags: TagWidget,
}

/// What the home page renders from one state snapshot: heading text, the
/// counter's value, whether each pagination control is present at all
/// (absent, not disabled, outside its range), and the widget's view.
#[derive(Clone, Debug, PartialEq)]
pub struct HomeView {
    pub heading: String,
    pub count: u64,
    pub show_prev: bool,
    pub show_next: bool,
    pub tag_view: WidgetView,
}

impl HomePage {
    /// A fresh page: first page, counter at zero, widget not yet mounted.
    pub fn new() -> (r: HomePage)
        ensures
            r.page.wf(),
            r.page.value() == 0,
            r.counter.value() == 0,
            r.tags.fetch is Idle,
            r.tags.selected@ == Seq::<char>::empty(),
    {
        HomePage { page: PageIndex::new(), counter: Counter::new(), tags: TagWidget::new() }
    }

    /// Render the page as a pure view of the current state: the previous
    /// control is present iff the index is above zero, the next control
    /// iff it is below the top, and the widget view follows the widget's
    /// own state.
    pub fn render(&self) -> (v: HomeView)
        ensures
            v.heading@ == "Welcome to Leptos!"@,
            v.count as int == self.counter.value(),
            v.show_prev == (self.page.value() > 0),
            v.show_next == (self.page.value() < PAGE_MAX as int),
            spec_widget_view(self.tags.fetch, self.tags.selected@, v.tag_view),
    {
        HomeView {
            heading: "Welcome to Leptos!".to_owned(),
            count: self.counter.get(),
            show_prev: self.page.show_prev(),
            show_next: self.page.show_next(),
            tag_view: self.tags.render(),
        }
    }
}

} // verus!
