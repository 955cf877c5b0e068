use vstd::prelude::*;

verus! {

/// Body of a request that creates an article.
#[derive(Debug)]
pub struct CreateArticleSchema {
    pub title: String,
    pub article: String,
}

/// Body of a request that replaces an article's title and text.
#[derive(Debug)]
pub struct UpdateArticleSchema {
    pub title: String,
    pub article: String,
}

/// Body of a request that subscribes to a feed.
#[derive(Debug)]
pub struct CreateChannelSchema {
    pub name: String,
    pub url: String,
}

/// Body of a request that registers a device.
#[derive(Debug)]
pub struct CreateDeviceSchema {
    pub name: String,
    pub ip: String,
    pub mac: String,
}

/// Body of a request that replaces a device's name and addresses.
#[derive(Debug)]
pub struct UpdateDeviceSchema {
    pub name: String,
    pub ip: String,
    pub mac: String,
}

} // verus!
