//! Which album is meant, and which assets are in it.

use vstd::prelude::*;

use crate::asset;
use crate::asset::AssetDetail;
use crate::client;
use crate::client::{Body, Client, Request};
use crate::text;

verus! {

/// How many assets are asked for at once where the album's size is not known.
pub const DEFAULT_SIZE: usize = 1000;

/// The commands that work on an album.
#[derive(Debug, Clone, Copy, PartialEq, Eq, Structural)]
pub enum Command {
    /// Record the album's assets.
    List,
    /// Correct their timestamps.
    Fix,
}

/// What the server tells of an album.
#[derive(Debug, PartialEq, Eq)]
pub struct AlbumResponse {
    pub id: String,
    pub name: String,
    pub asset_count: u64,
}

/// What is needed to know the album.
#[derive(Debug, PartialEq, Eq)]
pub enum AlbumLookup {
    /// Nothing: this is its id, and so many assets are asked for at once.
    Known { id: String, size: usize },
    /// The server's answer to the question which albums have this name.
    ByName { name: String },
}

/// A server's answer, with what it holds if the server was content.
#[derive(Debug, PartialEq, Eq)]
pub enum Reply<T> {
    /// The request was turned down.
    Refused { status: String, text: String },
    /// The request was answered.
    Success(T),
}

/// Why the album or its assets are not known.
#[derive(Debug, PartialEq, Eq)]
pub enum AlbumError {
    /// Neither an id nor a name was given.
    NotSelected,
    /// The server turned the request down.
    Refused { status: String, text: String },
    /// No album has the name.
    NoAlbums,
    /// So many albums have the name.
    MultipleAlbums { count: usize },
}

/// What an error says.
pub open spec fn error_text(error: AlbumError) -> Seq<char> {
    match error {
        AlbumError::NotSelected => "must provide either album_id or album_name"@,
        AlbumError::Refused { status, text } => "failed to fetch album: "@ + status@ + " - "@
            + text@,
        AlbumError::NoAlbums => "no albums found"@,
        AlbumError::MultipleAlbums { count } => "multiple albums found: "@ + text::decimal(
            count as nat,
        ),
    }
}

impl AlbumError {
    /// The error in words.
    pub fn message(&self) -> (r: String)
        ensures
            r@ == error_text(*self),
    {
        match self {
            AlbumError::NotSelected => "must provide either album_id or album_name".to_owned(),
            AlbumError::Refused { status, text } => {
                let mut r = "failed to fetch album: ".to_owned();
                r.append(status.as_str());
                r.append(" - ");
                r.append(text.as_str());
                r
            },
            AlbumError::NoAlbums => "no albums found".to_owned(),
            AlbumError::MultipleAlbums { count } => {
                let mut r = "multiple albums found: ".to_owned();
                text::append_decimal(&mut r, *count as u64);
                r
            },
        }
    }
}

/// What a command says if it is not told which album is meant.
pub open spec fn selection_error(command: Command) -> Seq<char> {
    match command {
        Command::List => "either album_id or album_name must be provided"@,
        Command::Fix => "must provide either album_id or album_name"@,
    }
}

/// Checks that a command is told which album is meant.
pub fn check_selection(
    command: Command,
    album_id: Option<&str>,
    album_name: Option<&str>,
) -> (r: Result<(), String>)
    ensures
        r is Err <==> album_id is None && album_name is None,
        r matches Err(message) ==> message@ == selection_error(command),
{
    if album_id.is_none() && album_name.is_none() {
        Err(
            match command {
                Command::List => "either album_id or album_name must be provided".to_owned(),
                Command::Fix => "must provide either album_id or album_name".to_owned(),
            },
        )
    } else {
        Ok(())
    }
}

/// What is needed to know the album's id and size: an id goes before a name.
pub fn get_album_id_and_size(album_id: Option<&str>, album_name: Option<&str>) -> (r: Result<
    AlbumLookup,
    AlbumError,
>)
    ensures
        match (album_id, album_name) {
            (Some(given), _) => r matches Ok(AlbumLookup::Known { id, size }) && id@ == given@
                && size == DEFAULT_SIZE && size == 1000,
            (None, Some(given)) => r matches Ok(AlbumLookup::ByName { name }) && name@ == given@,
            (None, None) => r == Err::<AlbumLookup, AlbumError>(AlbumError::NotSelected),
        },
{
    match album_id {
        Some(id) => Ok(AlbumLookup::Known { id: id.to_owned(), size: DEFAULT_SIZE }),
        None => match album_name {
            Some(name) => Ok(AlbumLookup::ByName { name: name.to_owned() }),
            None => Err(AlbumError::NotSelected),
        },
    }
}

/// Asks which albums have a name.
pub fn album_request(client: &Client, name: &str) -> (r: Request)
    ensures
        r@ == client::query_request(*client, "albums"@, seq![("name"@, name@)]),
{
    let query = [("name", name)];
    let r = client.get_query("albums", &query);
    assert(client::str_pairs_view(query@) =~= seq![("name"@, name@)]);
    r
}

/// The id and the size of the one album that the server found.
pub fn album_id_and_size_from_reply(reply: Reply<Vec<AlbumResponse>>) -> (r: Result<
    (String, usize),
    AlbumError,
>)
    ensures
        match reply {
            Reply::Refused { status, text } => r == Err::<(String, usize), AlbumError>(
                AlbumError::Refused { status, text },
            ),
            Reply::Success(albums) => if albums@.len() == 0 {
                r == Err::<(String, usize), AlbumError>(AlbumError::NoAlbums)
            } else if albums@.len() > 1 {
                r == Err::<(String, usize), AlbumError>(
                    AlbumError::MultipleAlbums { count: albums@.len() as usize },
                )
            } else {
                r == Ok::<(String, usize), AlbumError>(
                    (albums@[0].id, albums@[0].asset_count as usize),
                )
            },
        },
{
    match reply {
        Reply::Refused { status, text } => Err(AlbumError::Refused { status, text }),
        Reply::Success(albums) => {
            if albums.len() == 0 {
                return Err(AlbumError::NoAlbums);
            }
            if albums.len() > 1 {
                return Err(AlbumError::MultipleAlbums { count: albums.len() });
            }
            let size = #[verifier::truncate]
            (albums[0].asset_count as usize);
            Ok((albums[0].id.clone(), size))
        },
    }
}

/// The search for the assets of an album, page by page.
#[derive(Debug, PartialEq, Eq)]
pub struct AssetSearch {
    pub album_id: String,
    /// How many assets are asked for at once.
    pub size: usize,
    /// Whether that is also how many assets the album is said to have.
    pub size_is_count: bool,
    /// The page that is asked for next. The first is page 1.
    pub page: usize,
    /// The assets that were found so far.
    pub items: Vec<AssetDetail>,
    /// Whether the server has no more assets.
    pub complete: bool,
}

/// How far a search has come.
pub struct SearchView {
    pub album_id: Seq<char>,
    pub size: nat,
    pub size_is_count: bool,
    pub page: nat,
    pub items: Seq<AssetDetail>,
    pub complete: bool,
}

impl View for AssetSearch {
    type V = SearchView;

    open spec fn view(&self) -> SearchView {
        SearchView {
            album_id: self.album_id@,
            size: self.size as nat,
            size_is_count: self.size_is_count,
            page: self.page as nat,
            items: self.items@,
            complete: self.complete,
        }
    }
}

/// The start of a search.
pub open spec fn start_search(album_id: Seq<char>, size: nat, size_is_count: bool) -> SearchView {
    SearchView { album_id, size, size_is_count, page: 1, items: Seq::empty(), complete: false }
}

/// How far a search has come after a page. Only an empty page shows that there
/// are no more assets: one that is not full may be all that the server gives at
/// once.
pub open spec fn next_search(search: SearchView, found: Seq<AssetDetail>) -> SearchView {
    if found.len() == 0 {
        SearchView { complete: true, ..search }
    } else {
        SearchView { page: search.page + 1, items: search.items + found, ..search }
    }
}

/// The request for the page that a search takes next.
pub open spec fn page_request(client: Client, search: SearchView) -> client::RequestView {
    client::body_request(
        client,
        client::Method::Post,
        "search/metadata"@,
        client::BodyView::AlbumSearch {
            album_id: search.album_id,
            page: search.page as int,
            size: search.size as int,
        },
    )
}

impl AssetSearch {
    /// The start of a search, with so many assets to a page. `size_is_count`
    /// tells whether that is also how many assets the album is said to have.
    pub fn new(album_id: &str, size: usize, size_is_count: bool) -> (r: Self)
        ensures
            r@ == start_search(album_id@, size as nat, size_is_count),
            r.album_id@ == album_id@,
            r.size == size,
            r.size_is_count == size_is_count,
            r.page == 1,
            r.items@.len() == 0,
            !r.complete,
    {
        let r = AssetSearch {
            album_id: album_id.to_owned(),
            size,
            size_is_count,
            page: 1,
            items: Vec::new(),
            complete: false,
        };
        assert(r@.items =~= Seq::empty());
        r
    }

    /// Asks for the next page.
    pub fn request(&self, client: &Client) -> (r: Request)
        ensures
            r@ == page_request(*client, self@),
            r@ == client::body_request(
                *client,
                client::Method::Post,
                "search/metadata"@,
                client::BodyView::AlbumSearch {
                    album_id: self.album_id@,
                    page: self.page as int,
                    size: self.size as int,
                },
            ),
    {
        client.post(
            "search/metadata",
            Body::AlbumSearch {
                album_id: self.album_id.clone(),
                page: self.page,
                size: self.size,
            },
        )
    }

    /// Takes the answer to the request for the next page.
    pub fn take_page(&mut self, reply: Reply<Vec<AssetDetail>>) -> (r: Result<(), AlbumError>)
        requires
            !old(self).complete,
            old(self).page < usize::MAX,
        ensures
            match reply {
                Reply::Refused { status, text } => {
                    &&& r == Err::<(), AlbumError>(AlbumError::Refused { status, text })
                    &&& *final(self) == *old(self)
                },
                Reply::Success(found) => {
                    &&& r is Ok
                    &&& final(self)@ == next_search(old(self)@, found@)
                    &&& final(self).items@ == old(self).items@ + found@
                    &&& final(self).complete == (found@.len() == 0)
                    &&& final(self).page == old(self).page + if found@.len() == 0 {
                        0int
                    } else {
                        1int
                    }
                },
            },
            final(self).album_id@ == old(self).album_id@,
            final(self).size == old(self).size,
            final(self).size_is_count == old(self).size_is_count,
    {
        match reply {
            Reply::Refused { status, text } => Err(AlbumError::Refused { status, text }),
            Reply::Success(found) => {
                if found.len() == 0 {
                    assert(self.items@ + found@ =~= self.items@);
                    self.complete = true;
                } else {
                    let mut found = found;
                    self.items.append(&mut found);
                    self.page = self.page + 1;
                }
                Ok(())
            },
        }
    }
}

/// The line that tells how many assets were found.
pub open spec fn found_line(found: nat) -> Seq<char> {
    "Album has "@ + text::decimal(found) + " assets. Fetching details for each..."@
}

/// The line that warns if not as many assets were found as were expected. If
/// the album's number of assets is not known, a page is expected to be full, and
/// once there is more than one page nothing is expected.
pub open spec fn size_warning(search: SearchView) -> Option<Seq<char>> {
    let one_page = search.page <= 2;
    if search.items.len() != search.size && (search.size_is_count || one_page) {
        Some(
            "Warning: fetched "@ + text::decimal(search.items.len()) + " assets, expected "@
                + text::decimal(search.size),
        )
    } else {
        None
    }
}

/// The assets of an album, and what is said of their number.
#[derive(Debug, PartialEq, Eq)]
pub struct AlbumAssets {
    pub items: Vec<AssetDetail>,
    pub found: String,
    pub warning: Option<String>,
}

/// The assets that a complete search has found, all of them in the server's
/// order.
pub fn get_asset_details(search: AssetSearch) -> (r: AlbumAssets)
    requires
        search.complete,
    ensures
        r.items == search.items,
        r.found@ == found_line(search.items@.len()),
        match r.warning {
            Some(warning) => size_warning(search@) == Some(warning@),
            None => size_warning(search@) is None,
        },
{
    let one_page = search.page <= 2;
    let expected = search.size_is_count || one_page;
    let items = search.items;
    let size = search.size;
    let mut found = "Album has ".to_owned();
    text::append_decimal(&mut found, items.len() as u64);
    found.append(" assets. Fetching details for each...");
    let warning = if items.len() != size && expected {
        let mut warning = "Warning: fetched ".to_owned();
        text::append_decimal(&mut warning, items.len() as u64);
        warning.append(" assets, expected ");
        text::append_decimal(&mut warning, size as u64);
        Some(warning)
    } else {
        None
    };
    AlbumAssets { items, found, warning }
}

/// How many of an album's assets stand before a page.
pub open spec fn before_page(all: Seq<AssetDetail>, page: nat, per_page: nat) -> int {
    let before = (page - 1) * per_page;
    if before < all.len() {
        before
    } else {
        all.len() as int
    }
}

/// A page of an album's assets, where the server gives so many at once.
pub open spec fn page_of(all: Seq<AssetDetail>, page: nat, per_page: nat) -> Seq<AssetDetail> {
    all.subrange(before_page(all, page, per_page), before_page(all, page + 1, per_page))
}

/// How far a search has come when it is complete, or after so many more pages
/// of a server that gives so many assets at once.
pub open spec fn search_over(
    search: SearchView,
    all: Seq<AssetDetail>,
    per_page: nat,
    pages: nat,
) -> SearchView
    decreases pages,
{
    if search.complete || pages == 0 {
        search
    } else {
        let next = next_search(search, page_of(all, search.page, per_page));
        search_over(next, all, per_page, (pages - 1) as nat)
    }
}

proof fn lemma_search_goes_on(
    search: SearchView,
    all: Seq<AssetDetail>,
    per_page: nat,
    pages: nat,
)
    requires
        per_page > 0,
        search.page > 0,
        !search.complete,
        search.items == all.take(before_page(all, search.page, per_page)),
        pages > all.len() - before_page(all, search.page, per_page),
    ensures
        search_over(search, all, per_page, pages).complete,
        search_over(search, all, per_page, pages).items == all,
    decreases pages,
{
    let from = before_page(all, search.page, per_page);
    let to = before_page(all, search.page + 1, per_page);
    assert((search.page + 1 - 1) * per_page == (search.page - 1) * per_page + per_page)
        by (nonlinear_arith);
    assert(0 <= (search.page - 1) * per_page) by (nonlinear_arith)
        requires
            search.page > 0,
    ;
    let found = page_of(all, search.page, per_page);
    let next = next_search(search, found);
    if found.len() == 0 {
        assert(search.items =~= all);
        assert(search_over(next, all, per_page, (pages - 1) as nat) == next);
    } else {
        assert(next.items =~= all.take(to));
        lemma_search_goes_on(next, all, per_page, (pages - 1) as nat);
    }
}

/// Whatever the number of assets in an album, and however many the server
/// gives at once, the search comes to an end and then has found every asset,
/// once and in the server's order. One page more than there are assets is
/// always enough.
pub proof fn law_every_asset_is_found(
    album_id: Seq<char>,
    size: nat,
    size_is_count: bool,
    all: Seq<AssetDetail>,
    per_page: nat,
    pages: nat,
)
    requires
        per_page > 0,
        pages > all.len(),
    ensures
        search_over(start_search(album_id, size, size_is_count), all, per_page, pages).complete,
        search_over(start_search(album_id, size, size_is_count), all, per_page, pages).items == all,
{
    let start = start_search(album_id, size, size_is_count);
    assert(before_page(all, 1, per_page) == 0) by {
        assert((1 - 1) * per_page == 0) by (nonlinear_arith);
    }
    assert(start.items =~= all.take(0));
    lemma_search_goes_on(start, all, per_page, pages);
}

/// The record of a complete search has one entry for every asset of the album,
/// in the server's order, whatever their number.
pub proof fn law_every_asset_is_recorded(
    album_id: Seq<char>,
    size: nat,
    size_is_count: bool,
    all: Seq<AssetDetail>,
    per_page: nat,
    pages: nat,
)
    requires
        per_page > 0,
        pages > all.len(),
    ensures
        asset::records_of(
            search_over(start_search(album_id, size, size_is_count), all, per_page, pages).items,
        ).len() == all.len(),
        forall|i: int|
            0 <= i < all.len() ==> #[trigger] asset::records_of(
                search_over(start_search(album_id, size, size_is_count), all, per_page, pages).items,
            )[i] == asset::record_of(all[i]),
{
    law_every_asset_is_found(album_id, size, size_is_count, all, per_page, pages);
}

/// A view shows a search as it is.
pub proof fn law_search_views(search: AssetSearch)
    ensures
        search@.album_id == search.album_id@,
        search@.size == search.size,
        search@.size_is_count == search.size_is_count,
        search@.page == search.page,
        search@.items == search.items@,
        search@.complete == search.complete,
{
}

/// A page that is taken joins the assets that were found before it, as they
/// are and behind them, and only an empty page ends the search. The album and
/// the size that are asked for stay the same.
pub proof fn law_pages_are_joined(search: SearchView, found: Seq<AssetDetail>)
    ensures
        next_search(search, found).items == search.items + found,
        next_search(search, found).page == search.page + if found.len() == 0 {
            0int
        } else {
            1int
        },
        next_search(search, found).complete <==> search.complete || found.len() == 0,
        next_search(search, found).album_id == search.album_id,
        next_search(search, found).size == search.size,
        next_search(search, found).size_is_count == search.size_is_count,
{
    if found.len() == 0 {
        assert(search.items + found =~= search.items);
    }
}

proof fn lemma_search_keeps(search: SearchView, all: Seq<AssetDetail>, per_page: nat, pages: nat)
    ensures
        search_over(search, all, per_page, pages).album_id == search.album_id,
        search_over(search, all, per_page, pages).size == search.size,
        search_over(search, all, per_page, pages).size_is_count == search.size_is_count,
        !search_over(search, all, per_page, pages).complete ==> search_over(
            search,
            all,
            per_page,
            pages,
        ).page == search.page + pages,
    decreases pages,
{
    if !search.complete && pages > 0 {
        let next = next_search(search, page_of(all, search.page, per_page));
        law_pages_are_joined(search, page_of(all, search.page, per_page));
        lemma_search_keeps(next, all, per_page, (pages - 1) as nat);
    }
}

/// However many pages were taken, a search asks for the album and the size that
/// it was started with. It starts at page one, with nothing found.
pub proof fn law_search_stays_with_its_album(
    album_id: Seq<char>,
    size: nat,
    size_is_count: bool,
    all: Seq<AssetDetail>,
    per_page: nat,
    pages: nat,
)
    ensures
        start_search(album_id, size, size_is_count).album_id == album_id,
        start_search(album_id, size, size_is_count).size == size,
        start_search(album_id, size, size_is_count).size_is_count == size_is_count,
        start_search(album_id, size, size_is_count).page == 1,
        start_search(album_id, size, size_is_count).items.len() == 0,
        !start_search(album_id, size, size_is_count).complete,
        search_over(
            start_search(album_id, size, size_is_count),
            all,
            per_page,
            pages,
        ).album_id == album_id,
        search_over(start_search(album_id, size, size_is_count), all, per_page, pages).size
            == size,
        search_over(
            start_search(album_id, size, size_is_count),
            all,
            per_page,
            pages,
        ).size_is_count == size_is_count,
{
    lemma_search_keeps(start_search(album_id, size, size_is_count), all, per_page, pages);
}

/// Every request of a search is a POST that names the album and the size that
/// the search was started with, and no other, and the page that is due.
pub proof fn law_requests_name_the_album(
    client: Client,
    album_id: Seq<char>,
    size: nat,
    size_is_count: bool,
    all: Seq<AssetDetail>,
    per_page: nat,
    pages: nat,
)
    ensures
        ({
            let start = start_search(album_id, size, size_is_count);
            let search = search_over(start, all, per_page, pages);
            let request = page_request(client, search);
            &&& request.method == client::Method::Post
            &&& request.url == client.base_url@ + "/search/metadata"@
            &&& request.query.len() == 0
            &&& request.body == Some(
                client::BodyView::AlbumSearch {
                    album_id,
                    page: search.page as int,
                    size: size as int,
                },
            )
            &&& page_request(client, start).body == Some(
                client::BodyView::AlbumSearch { album_id, page: 1, size: size as int },
            )
            &&& !search.complete ==> search.page == pages + 1
        }),
{
    reveal_strlit("/search/metadata");
    reveal_strlit("search/metadata");
    law_search_stays_with_its_album(album_id, size, size_is_count, all, per_page, pages);
    let start = start_search(album_id, size, size_is_count);
    lemma_search_keeps(start, all, per_page, pages);
    let search = search_over(start, all, per_page, pages);
    client::law_url_of_a_path(client.base_url@, "search/metadata"@);
    assert(page_request(client, search).url =~= client.base_url@ + "/search/metadata"@);
}

/// Pages follow each other without a gap: the page behind a full page begins
/// where that ends, and a page holds the assets at its places.
pub proof fn law_pages_of_a_server(all: Seq<AssetDetail>, page: nat, per_page: nat, i: int)
    requires
        page > 0,
        0 <= i < per_page,
    ensures
        page_of(all, page, per_page).len() <= per_page,
        i < page_of(all, page, per_page).len() <==> (page - 1) * per_page + i < all.len(),
        (page - 1) * per_page + i < all.len() ==> page_of(all, page, per_page)[i] == all[(page - 1)
            * per_page + i],
{
    assert((page + 1 - 1) * per_page == (page - 1) * per_page + per_page) by (nonlinear_arith);
    assert(0 <= (page - 1) * per_page) by (nonlinear_arith)
        requires
            page > 0,
    ;
}

/// What is told of the number of assets: that number, and a warning with both
/// numbers where it is not the expected one. Nothing is expected of an album
/// of unknown size that takes more than one page.
pub proof fn law_number_of_assets_is_told(search: SearchView, found: nat)
    ensures
        found_line(found) == "Album has "@ + text::decimal(found)
            + " assets. Fetching details for each..."@,
        search.items.len() == search.size ==> size_warning(search) is None,
        !search.size_is_count && search.page > 2 ==> size_warning(search) is None,
        search.items.len() != search.size && (search.size_is_count || search.page <= 2)
            ==> size_warning(search) == Some(
            "Warning: fetched "@ + text::decimal(search.items.len()) + " assets, expected "@
                + text::decimal(search.size),
        ),
{
}

/// The words of the errors, with what the server answered and with the number
/// of albums.
pub proof fn law_album_error_words(status: String, text: String, count: usize)
    ensures
        error_text(AlbumError::NotSelected) == "must provide either album_id or album_name"@,
        error_text(AlbumError::Refused { status, text }) == "failed to fetch album: "@ + status@
            + " - "@ + text@,
        error_text(AlbumError::NoAlbums) == "no albums found"@,
        error_text(AlbumError::MultipleAlbums { count }) == "multiple albums found: "@
            + text::decimal(count as nat),
        selection_error(Command::List) == "either album_id or album_name must be provided"@,
        selection_error(Command::Fix) == "must provide either album_id or album_name"@,
{
}

} // verus!
