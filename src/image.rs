//! Requests of the image API: character portraits and item icons.

use vstd::prelude::*;

use crate::error::{Error, InvalidQueryParameter};
use crate::kinds::{server_text, Server};
use crate::model::{Character, Item, ItemExt, ItemInfo, ItemWithRarity};
use crate::query::pairs_view;
use crate::request::{Request, IMAGE_BASE_URL};
use crate::text::{decimal, decimal_text, push_decimal, push_text};

verus! {

/// A value that names an item by id and name.
pub trait AsItem: crate::sealed::Sealed {
    spec fn spec_id(&self) -> Seq<char>;

    spec fn spec_name(&self) -> Seq<char>;

    fn id(&self) -> (r: &str)
        ensures
            r@ == self.spec_id(),
    ;

    fn name(&self) -> (r: &str)
        ensures
            r@ == self.spec_name(),
    ;
}

impl AsItem for Item {
    open spec fn spec_id(&self) -> Seq<char> {
        self.id@
    }

    open spec fn spec_name(&self) -> Seq<char> {
        self.name@
    }

    fn id(&self) -> (r: &str) {
        self.id.as_str()
    }

    fn name(&self) -> (r: &str) {
        self.name.as_str()
    }
}

impl AsItem for ItemWithRarity {
    open spec fn spec_id(&self) -> Seq<char> {
        self.id@
    }

    open spec fn spec_name(&self) -> Seq<char> {
        self.name@
    }

    fn id(&self) -> (r: &str) {
        self.id.as_str()
    }

    fn name(&self) -> (r: &str) {
        self.name.as_str()
    }
}

impl AsItem for ItemExt {
    open spec fn spec_id(&self) -> Seq<char> {
        self.id@
    }

    open spec fn spec_name(&self) -> Seq<char> {
        self.name@
    }

    fn id(&self) -> (r: &str) {
        self.id.as_str()
    }

    fn name(&self) -> (r: &str) {
        self.name.as_str()
    }
}

impl AsItem for ItemInfo {
    open spec fn spec_id(&self) -> Seq<char> {
        self.id@
    }

    open spec fn spec_name(&self) -> Seq<char> {
        self.name@
    }

    fn id(&self) -> (r: &str) {
        self.id.as_str()
    }

    fn name(&self) -> (r: &str) {
        self.name.as_str()
    }
}

/// The portrait URL of a character.
pub open spec fn character_image_url(server: Server, id: Seq<char>) -> Seq<char> {
    IMAGE_BASE_URL@ + "/servers/"@ + server_text(server) + "/characters/"@ + id
}

/// The icon URL of an item.
pub open spec fn item_image_url(id: Seq<char>) -> Seq<char> {
    IMAGE_BASE_URL@ + "/items/"@ + id
}

/// The message of a zoom level out of range.
pub open spec fn zoom_message(zoom: u8) -> Seq<char> {
    "`zoom` must be 1, 2, or 3. (current: `"@ + decimal(zoom as nat) + "`)"@
}

/// Requests of the image API.
#[derive(Debug, Clone, Copy)]
pub struct ImageHandler {}

impl ImageHandler {
    pub fn new() -> (r: ImageHandler) {
        ImageHandler {  }
    }

    /// The request of a character portrait at zoom level 1, 2 or 3; any
    /// other level is refused before a request is made.
    pub fn _character(&self, server: Server, character_id: &str, zoom: u8) -> (r: Result<
        Request,
        Error,
    >)
        ensures
            (1 <= zoom <= 3) <==> r is Ok,
            r matches Ok(q) ==> q.path@ == character_image_url(server, character_id@)
                && q.query_view() == seq![("zoom"@, decimal(zoom as nat))],
            r matches Err(e) ==> (e matches Error::InvalidQueryParameter(v) && v.path@
                == character_image_url(server, character_id@) && v.message@ == zoom_message(
                zoom,
            )),
    {
        let mut url = IMAGE_BASE_URL.to_owned();
        push_text(&mut url, "/servers/");
        push_text(&mut url, server.as_str());
        push_text(&mut url, "/characters/");
        push_text(&mut url, character_id);
        if !(1 <= zoom && zoom <= 3) {
            let mut message = "`zoom` must be 1, 2, or 3. (current: `".to_owned();
            push_decimal(&mut message, zoom as u64);
            push_text(&mut message, "`)");
            return Err(Error::InvalidQueryParameter(InvalidQueryParameter { path: url, message }));
        }
        let mut query: Vec<(String, String)> = Vec::new();
        query.push(("zoom".to_owned(), decimal_text(zoom as u64)));
        assert(pairs_view(query@) =~= seq![("zoom"@, decimal(zoom as nat))]);
        Ok(Request { path: url, query })
    }

    /// The request of the portrait of a character found by a search.
    pub fn character(&self, character: &Character, zoom: u8) -> (r: Result<Request, Error>)
        ensures
            (1 <= zoom <= 3) <==> r is Ok,
            r matches Ok(q) ==> q.path@ == character_image_url(character.server, character.id@)
                && q.query_view() == seq![("zoom"@, decimal(zoom as nat))],
    {
        self._character(character.server, character.id.as_str(), zoom)
    }

    /// The request of an item icon.
    pub fn _item(&self, item_id: &str) -> (r: Request)
        ensures
            r.path@ == item_image_url(item_id@),
            r.query@.len() == 0,
    {
        let mut url = IMAGE_BASE_URL.to_owned();
        push_text(&mut url, "/items/");
        push_text(&mut url, item_id);
        Request { path: url, query: Vec::new() }
    }

    /// The request of the icon of an item.
    pub fn item<T: AsItem>(&self, item: &T) -> (r: Request)
        ensures
            r.path@ == item_image_url(item.spec_id()),
            r.query@.len() == 0,
    {
        self._item(item.id())
    }
}

} // verus!
