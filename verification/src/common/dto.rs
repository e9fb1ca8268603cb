use vstd::prelude::*;

verus! {

/// `?page=&limit=` of a list request.
pub struct PaginationQuery {
    pub page: Option<i32>,
    pub limit: Option<i32>,
}

/// The pagination block of a list answer.
pub struct PaginationDTO {
    pub page: i32,
    pub total: Option<i32>,
    pub total_pages: Option<i32>,
    pub limit: Option<i32>,
}

/// An icon with a title and a description.
pub struct IconTextDTO {
    pub title: Option<String>,
    pub icon: Option<String>,
    pub description: Option<String>,
}

/// A stored image, video or audio file as the API shows it.
#[derive(Clone, Debug)]
pub struct MediaDTO {
    pub url: String,
    pub alt: Option<String>,
    pub title: Option<String>,
    pub media_type: Option<String>,
}

/// A row of an attraction's items.
pub struct AttractionRowDTO {
    pub icon: Option<String>,
    pub text: String,
    pub description: Option<String>,
}

/// An attraction with its items.
pub struct AttractionDTO {
    pub uuid: u128,
    pub title: String,
    pub subtitle: Option<String>,
    pub items: Vec<IconTextDTO>,
}

} // verus!
