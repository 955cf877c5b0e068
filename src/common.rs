use vstd::prelude::*;

verus! {

/// What a feed item is, mathematically: its optional title and link.
pub type ItemView = (Option<Seq<char>>, Option<Seq<char>>);

/// What a feed snapshot is, mathematically: name, link and items in feed order.
pub type FeedView = (Seq<char>, Seq<char>, Seq<ItemView>);

pub open spec fn opt_text(o: Option<String>) -> Option<Seq<char>> {
    match o {
        Some(s) => Some(s@),
        None => None,
    }
}

/// One entry of a feed.
#[derive(Debug)]
pub struct Item {
    title: Option<String>,
    link: Option<String>,
}

impl View for Item {
    type V = ItemView;

    closed spec fn view(&self) -> ItemView {
        (opt_text(self.title), opt_text(self.link))
    }
}

impl Item {
    pub fn new(title: Option<String>, link: Option<String>) -> (r: Self)
        ensures
            r@ == (opt_text(title), opt_text(link)),
    {
        Self { title, link }
    }

    pub fn title(&self) -> (r: &Option<String>)
        ensures
            opt_text(*r) == self@.0,
    {
        &self.title
    }

    pub fn link(&self) -> (r: &Option<String>)
        ensures
            opt_text(*r) == self@.1,
    {
        &self.link
    }
}

pub open spec fn items_view(items: Seq<Item>) -> Seq<ItemView> {
    items.map_values(|i: Item| i@)
}

/// A fully parsed snapshot of one feed source.
#[derive(Debug)]
pub struct Channel {
    name: String,
    link: String,
    items: Vec<Item>,
}

impl View for Channel {
    type V = FeedView;

    closed spec fn view(&self) -> FeedView {
        (self.name@, self.link@, items_view(self.items@))
    }
}

impl Channel {
    pub fn new(name: String, link: String, items: Vec<Item>) -> (r: Self)
        ensures
            r@ == (name@, link@, items_view(items@)),
    {
        Self { name, link, items }
    }

    pub fn name(&self) -> (r: &String)
        ensures
            r@ == self@.0,
    {
        &self.name
    }

    pub fn link(&self) -> (r: &String)
        ensures
            r@ == self@.1,
    {
        &self.link
    }

    pub fn items(&self) -> (r: &Vec<Item>)
        ensures
            items_view(r@) == self@.2,
    {
        &self.items
    }
}

} // verus!
