use vstd::prelude::*;

verus! {

/// The selection after clicking `label` while `sel` was selected: clicking
/// the already-selected label clears the selection (the empty string stands
/// for "none selected"), clicking any other label replaces it.
pub open spec fn spec_toggle(sel: Seq<char>, label: Seq<char>) -> Seq<char> {
    if sel == label {
        Seq::<char>::empty()
    } else {
        label
    }
}

/// Toggle the selection by one click on `label`.
pub fn toggle(selected: &String, label: &String) -> (r: String)
    ensures
        r@ == spec_toggle(selected@, label@),
{
    if *selected == *label {
        String::new()
    } else {
        label.clone()
    }
}

/// The visual state of one rendered tag element.
#[derive(Clone, Copy, Debug, PartialEq, Eq, Structural)]
pub enum StyleClass {
    Normal,
    Highlighted,
}

/// The style of a label under a given selection: highlighted exactly when
/// the label equals the selection, a plain equality tie-break.
pub open spec fn spec_class(sel: Seq<char>, label: Seq<char>) -> StyleClass {
    if sel == label {
        StyleClass::Highlighted
    } else {
        StyleClass::Normal
    }
}

impl StyleClass {
    /// The stylesheet class list for this visual state.
    pub fn css(&self) -> (r: String)
        ensures
            *self is Highlighted ==> r@ == "tag-pill tag-default tag-primary"@,
            *self is Normal ==> r@ == "tag-pill tag-default"@,
    {
        match self {
            StyleClass::Highlighted => "tag-pill tag-default tag-primary".to_owned(),
            StyleClass::Normal => "tag-pill tag-default".to_owned(),
        }
    }
}

/// The error a tag fetch can end in: a single generic server-error kind,
/// carrying a message that is never surfaced to the user.
#[derive(Clone, Debug, PartialEq)]
pub struct FetchError {
    pub message: String,
}

/// The phase of the one asynchronous tag fetch a widget performs:
/// `Idle` before mount, `Pending` while unresolved, then terminally
/// `Ready` with the fetched labels or `Failed`.
#[derive(Clone, Debug, PartialEq)]
pub enum TagFetch {
    Idle,
    Pending,
    Ready(Vec<String>),
    Failed,
}

/// One rendered tag element: its text, its visual state, and the selection
/// value a click on it would install.
#[derive(Clone, Debug, PartialEq)]
pub struct TagLink {
    pub label: String,
    pub class: StyleClass,
    pub on_click: String,
}

/// What the widget renders in a given state: a loading placeholder, a
/// static error message, or the list of tag elements.
#[derive(Clone, Debug, PartialEq)]
pub enum WidgetView {
    Loading,
    Failure(String),
    Tags(Vec<TagLink>),
}

/// One rendered `TagLink` is correct for `label` under selection `sel`.
pub open spec fn spec_link(sel: Seq<char>, label: Seq<char>, link: TagLink) -> bool {
    &&& link.label@ == label
    &&& link.class == spec_class(sel, label)
    &&& link.on_click@ == spec_toggle(sel, label)
}

/// The view `v` is the correct rendering of a widget with fetch phase
/// `fetch` and selection `sel`: a placeholder until the fetch resolves,
/// exactly the static error message and zero tag elements on failure, and
/// otherwise one element per fetched label, in fetch order.
pub open spec fn spec_widget_view(fetch: TagFetch, sel: Seq<char>, v: WidgetView) -> bool {
    &&& (fetch is Idle || fetch is Pending) ==> v == WidgetView::Loading
    &&& fetch is Failed ==> (v is Failure && v->Failure_0@ == "Something went wrong."@)
    &&& fetch is Ready ==> (v is Tags && v->Tags_0@.len() == fetch->Ready_0@.len() && (forall|i: int|
        0 <= i < fetch->Ready_0@.len() ==> spec_link(
            sel,
            fetch->Ready_0@[i]@,
            #[trigger] v->Tags_0@[i],
        )))
}

/// The tag-selection widget: it owns the fetch phase and the currently
/// selected tag (selection is internal to the widget; it is not shared
/// with the page address). Rendering is a pure function of this state.
pub struct TagWidget {
    pub fetch: TagFetch,
    pub selected: String,
}

impl TagWidget {
    /// A fresh widget: fetch not yet issued, nothing selected.
    pub fn new() -> (r: TagWidget)
        ensures
            r.fetch is Idle,
            r.selected@ == Seq::<char>::empty(),
    {
        TagWidget { fetch: TagFetch::Idle, selected: String::new() }
    }

    /// Mounting issues the one fetch of the widget's lifetime: the phase
    /// moves from `Idle` to `Pending`; the selection is untouched.
    pub fn mount(&mut self)
        requires
            old(self).fetch is Idle,
        ensures
            final(self).fetch is Pending,
            final(self).selected == old(self).selected,
    {
        self.fetch = TagFetch::Pending;
    }

    /// The fetch resolves exactly once: success carries the labels into
    /// `Ready`, failure of any kind collapses to `Failed`. Both outcomes
    /// are terminal; the selection is untouched.
    pub fn resolve(&mut self, outcome: Result<Vec<String>, FetchError>)
        requires
            old(self).fetch is Pending,
        ensures
            outcome is Ok ==> final(self).fetch == TagFetch::Ready(outcome->Ok_0),
            outcome is Err ==> final(self).fetch is Failed,
            final(self).selected == old(self).selected,
    {
        match outcome {
            Ok(tags) => {
                self.fetch = TagFetch::Ready(tags);
            },
            Err(_) => {
                self.fetch = TagFetch::Failed;
            },
        }
    }

    /// A click on a tag element toggles the selection; it never re-issues
    /// the fetch.
    pub fn click(&mut self, label: &String)
        ensures
            final(self).selected@ == spec_toggle(old(self).selected@, label@),
            final(self).fetch == old(self).fetch,
    {
        self.selected = toggle(&self.selected, label);
    }

    /// Render the widget as a pure view tree: a placeholder until the
    /// fetch resolves, the static error message if it failed, and
    /// otherwise one element per fetched label, in fetch order, each
    /// styled by equality with the selection.
    pub fn render(&self) -> (v: WidgetView)
        ensures
            spec_widget_view(self.fetch, self.selected@, v),
    {
        match &self.fetch {
            TagFetch::Idle => WidgetView::Loading,
            TagFetch::Pending => WidgetView::Loading,
            TagFetch::Failed => WidgetView::Failure("Something went wrong.".to_owned()),
            TagFetch::Ready(tags) => {
                let mut links: Vec<TagLink> = Vec::new();
                let mut i: usize = 0;
                while i < tags.len()
                    invariant
                        i <= tags@.len(),
                        links@.len() == i as int,
                        forall|j: int|
                            0 <= j < i as int ==> spec_link(
                                self.selected@,
                                tags@[j]@,
                                #[trigger] links@[j],
                            ),
                    decreases tags@.len() - i,
                {
                    let label: &String = &tags[i];
                    let class = if self.selected == *label {
                        StyleClass::Highlighted
                    } else {
                        StyleClass::Normal
                    };
                    let on_click = toggle(&self.selected, label);
                    links.push(TagLink { label: label.clone(), class: class, on_click: on_click });
                    i = i + 1;
                }
                WidgetView::Tags(links)
            },
        }
    }
}

/// Clicking the same label twice returns the selection to "none": the
/// first click installs the label, the second clears it.
pub proof fn lemma_toggle_same_twice(sel: Seq<char>, label: Seq<char>)
    requires
        sel != label,
    ensures
        spec_toggle(spec_toggle(sel, label), label) == Seq::<char>::empty(),
{
}

/// Clicking a second, different label replaces the selection rather than
/// accumulating.
pub proof fn lemma_toggle_replaces(sel: Seq<char>, first: Seq<char>, second: Seq<char>)
    requires
        sel != first,
        first != second,
    ensures
        spec_toggle(spec_toggle(sel, first), second) == second,
{
}

/// With pairwise-distinct labels, a selection equal to the label at
/// position `k` highlights exactly that element and no other.
pub proof fn lemma_exactly_one_highlighted(labels: Seq<Seq<char>>, sel: Seq<char>, k: int)
    requires
        0 <= k < labels.len(),
        labels[k] == sel,
        forall|i: int, j: int| 0 <= i < j < labels.len() ==> labels[i] != labels[j],
    ensures
        forall|i: int|
            0 <= i < labels.len() ==> ((spec_class(sel, labels[i]) is Highlighted) <==> i == k),
{
    assert forall|i: int|
        0 <= i < labels.len() implies ((spec_class(sel, labels[i]) is Highlighted) <==> i
        == k) by {
        if i < k {
            assert(labels[i] != labels[k]);
        }
        if k < i {
            assert(labels[k] != labels[i]);
        }
    }
}

/// A selection that matches no label in the list highlights nothing: a
/// stale selection never takes visible effect, and it is not cleared.
pub proof fn lemma_nothing_highlighted(labels: Seq<Seq<char>>, sel: Seq<char>)
    requires
        forall|i: int| 0 <= i < labels.len() ==> labels[i] != sel,
    ensures
        forall|i: int| 0 <= i < labels.len() ==> spec_class(sel, #[trigger] labels[i]) is Normal,
{
}

} // verus!
