//! The Last.fm album answer's records, and the two shapes its tag list comes
//! in.
use vstd::prelude::*;

verus! {

/// A Last.fm tag.
#[derive(Debug)]
pub struct Tag {
    pub url: String,
    pub name: String,
}

/// A Last.fm image: a size name and an address.
#[derive(Debug)]
pub struct Image {
    pub size: String,
    pub url: String,
}

/// A Last.fm wiki: a summary and the full text.
#[derive(Debug)]
pub struct Wiki {
    pub summary: String,
    pub content: String,
}

/// A Last.fm album.
#[derive(Debug)]
pub struct Album {
    pub artist: String,
    pub mbid: Option<String>,
    pub tags: Vec<Tag>,
    pub image: Vec<Image>,
    pub url: String,
    pub name: String,
    pub wiki: Option<Wiki>,
}

/// The answer of an album lookup.
#[derive(Debug)]
pub struct AlbumResponse {
    pub album: Album,
}

/// The tag list as Last.fm writes it: an empty text when there are no tags,
/// else a nested list.
#[derive(Debug)]
pub enum TagsField {
    Text(String),
    Nested(Vec<Tag>),
}

/// The tags a tag field holds: none for the text form.
pub open spec fn field_tags(field: TagsField) -> Seq<Tag> {
    match field {
        TagsField::Text(_) => Seq::empty(),
        TagsField::Nested(v) => v@,
    }
}

/// Reads the tags of a tag field.
pub fn tags_from_field(field: TagsField) -> (res: Vec<Tag>)
    ensures
        res@ == field_tags(field),
{
    match field {
        TagsField::Text(_) => Vec::new(),
        TagsField::Nested(v) => v,
    }
}

/// The tag field for a list of tags: the empty text when there are none, else
/// the nested list. Reading it back gives the same tags.
pub fn tags_to_field(tags: Vec<Tag>) -> (res: TagsField)
    ensures
        tags.len() == 0 ==> (res matches TagsField::Text(t) && t@.len() == 0),
        tags.len() > 0 ==> res == TagsField::Nested(tags),
        field_tags(res) == tags@,
{
    if tags.len() == 0 {
        proof {
            assert(tags@ =~= Seq::<Tag>::empty());
        }
        TagsField::Text(String::new())
    } else {
        TagsField::Nested(tags)
    }
}

} // verus!
