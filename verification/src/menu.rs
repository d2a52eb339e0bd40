use vstd::prelude::*;

verus! {

/// What an entry of a context menu is. `P` is what choosing it hands back.
pub enum ContextMenuKind<P> {
    Checkbox { title: String, checked: bool, payload: P },
    Item { title: String, payload: P },
    Submenu { title: String, children: Vec<ContextMenuItem<P>> },
    Separator,
}

/// An entry of a context menu.
pub struct ContextMenuItem<P> {
    // Only one field to hide the actual enum
    kind: ContextMenuKind<P>,
}

impl<P> View for ContextMenuItem<P> {
    type V = ContextMenuKind<P>;

    closed spec fn view(&self) -> ContextMenuKind<P> {
        self.kind
    }
}

/// A context menu: a title, whether it can be used, and its entries.
pub struct ContextMenu<P> {
    title: String,
    enabled: bool,
    children: Vec<ContextMenuItem<P>>,
}

impl<P> ContextMenu<P> {
    pub closed spec fn spec_title(&self) -> Seq<char> {
        self.title@
    }

    pub closed spec fn spec_enabled(&self) -> bool {
        self.enabled
    }

    pub closed spec fn spec_children(&self) -> Seq<ContextMenuItem<P>> {
        self.children@
    }

    pub fn new(title: &str, enabled: bool, children: Vec<ContextMenuItem<P>>) -> (m: Self)
        ensures
            m.spec_title() == title@,
            m.spec_enabled() == enabled,
            m.spec_children() == children@,
    {
        ContextMenu { title: title.to_owned(), enabled, children }
    }

    /// The parts of the menu: title, whether it is enabled, entries.
    pub fn into_parts(self) -> (r: (String, bool, Vec<ContextMenuItem<P>>))
        ensures
            r.0@ == self.spec_title(),
            r.1 == self.spec_enabled(),
            r.2@ == self.spec_children(),
    {
        (self.title, self.enabled, self.children)
    }
}

impl<P> ContextMenuItem<P> {
    /// An entry that hands back `payload` when chosen.
    pub fn item(title: &str, payload: P) -> (i: Self)
        ensures
            i@ is Item,
            i@->Item_title@ == title@,
            i@->Item_payload == payload,
    {
        ContextMenuItem { kind: ContextMenuKind::Item { title: title.to_owned(), payload } }
    }

    /// An entry with a check mark that hands back `payload` when chosen.
    pub fn checkbox(title: &str, checked: bool, payload: P) -> (i: Self)
        ensures
            i@ is Checkbox,
            i@->Checkbox_title@ == title@,
            i@->Checkbox_checked == checked,
            i@->Checkbox_payload == payload,
    {
        ContextMenuItem {
            kind: ContextMenuKind::Checkbox { title: title.to_owned(), checked, payload },
        }
    }

    /// An entry that opens further entries.
    pub fn submenu(title: &str, children: Vec<ContextMenuItem<P>>) -> (i: Self)
        ensures
            i@ is Submenu,
            i@->Submenu_title@ == title@,
            i@->Submenu_children@ == children@,
    {
        ContextMenuItem { kind: ContextMenuKind::Submenu { title: title.to_owned(), children } }
    }

    /// A line between entries.
    pub fn separator() -> (i: Self)
        ensures
            i@ is Separator,
    {
        ContextMenuItem { kind: ContextMenuKind::Separator }
    }

    /// What the entry is.
    pub fn into_kind(self) -> (k: ContextMenuKind<P>)
        ensures
            k == self@,
    {
        self.kind
    }
}

} // verus!
