//! What the stream catalog's answers become: the places of one country, and
//! for each channel page a stream with a file-safe name and the address of its
//! audio. The catalog is reached over HTTP by the caller; this module computes
//! the addresses it asks and what it keeps from the answers.
use vstd::prelude::*;
use vstd::string::StrSliceExecFns;
use vstd::string::StringExecFns;

verus! {

/// Whether `char::is_alphanumeric` holds of `c` (Unicode alphabetic or numeric).
pub uninterp spec fn alphanumeric(c: char) -> bool;

/// Relies on `char::is_alphanumeric`. On ASCII it holds exactly of letters
/// and digits.
#[verifier::external_body]
fn is_alphanumeric(c: char) -> (r: bool)
    ensures
        r == alphanumeric(c),
        c <= '\x7f' ==> (r <==> (('a' <= c && c <= 'z') || ('A' <= c && c <= 'Z') || ('0' <= c
            && c <= '9'))),
{
    c.is_alphanumeric()
}

/// Relies on `String::push`: appends one character.
#[verifier::external_body]
fn push_char(s: &mut String, c: char)
    ensures
        final(s)@ == old(s)@.push(c),
{
    s.push(c)
}

/// The serialisation of the URL that `url::Url::parse` makes of a text, or
/// `None` where it refuses the text.
pub uninterp spec fn parsed_url(s: Seq<char>) -> Option<Seq<char>>;

/// Relies on `url::Url::parse`: parses an absolute URL and gives its
/// serialisation.
#[verifier::external_body]
fn parse_url(s: &str) -> (r: Option<String>)
    ensures
        match r {
            Some(u) => parsed_url(s@) == Some(u@),
            None => parsed_url(s@) is None,
        },
{
    url::Url::parse(s).ok().map(String::from)
}

/// The serialisation of `url::Url::join` of `rel` onto the URL that the text
/// `base` parses to, or `None` where parsing or joining fails.
pub uninterp spec fn joined_url(base: Seq<char>, rel: Seq<char>) -> Option<Seq<char>>;

/// Relies on `url::Url::join`, applied to the URL that `url::Url::parse`
/// makes of `base`: resolves a relative reference against a base.
#[verifier::external_body]
fn join_url(base: &str, rel: &str) -> (r: Option<String>)
    ensures
        match r {
            Some(u) => joined_url(base@, rel@) == Some(u@),
            None => joined_url(base@, rel@) is None,
        },
{
    url::Url::parse(base).and_then(|b| b.join(rel)).ok().map(String::from)
}

/// A location of the catalog, with the country it lies in.
pub struct Place {
    pub id: String,
    pub country: String,
}

/// A channel page of the catalog: its address and its title.
pub struct Page {
    pub url: String,
    pub title: String,
}

/// A stream to record: a file-safe name and the address of its audio.
pub struct Stream {
    pub name: String,
    pub url: String,
}

impl View for Place {
    type V = (Seq<char>, Seq<char>);

    open spec fn view(&self) -> (Seq<char>, Seq<char>) {
        (self.id@, self.country@)
    }
}

impl View for Stream {
    type V = (Seq<char>, Seq<char>);

    open spec fn view(&self) -> (Seq<char>, Seq<char>) {
        (self.name@, self.url@)
    }
}

/// A title with every character that is not alphanumeric left out.
pub open spec fn spec_sanitize(title: Seq<char>) -> Seq<char> {
    title.filter(|c: char| alphanumeric(c))
}

/// `seg` is the last `/`-separated segment of `s`: a suffix of `s` without a
/// `/`, which is all of `s` or follows a `/`.
pub open spec fn is_last_segment(s: Seq<char>, seg: Seq<char>) -> bool {
    &&& seg.len() <= s.len()
    &&& seg == s.subrange(s.len() - seg.len(), s.len() as int)
    &&& forall|i: int| 0 <= i < seg.len() ==> seg[i] != '/'
    &&& seg.len() == s.len() || s[s.len() - seg.len() - 1] == '/'
}

/// The address of a channel's audio under the catalog's base address.
pub open spec fn spec_stream_url(base: Seq<char>, seg: Seq<char>) -> Seq<char> {
    base + "listen/"@ + seg + "/channel.mp3"@
}

/// The name of the file that a stream is recorded to.
pub open spec fn spec_file_name(name: Seq<char>) -> Seq<char> {
    "stream_"@ + name + ".mp3"@
}

/// The path, relative to the base, of a place's channel list.
pub open spec fn spec_channels_path(place_id: Seq<char>) -> Seq<char> {
    "page/"@ + place_id + "/channels"@
}

/// The stream that a channel page yields under `base`.
pub open spec fn page_yields(base: Seq<char>, page: Page, s: (Seq<char>, Seq<char>)) -> bool {
    &&& s.0 == spec_sanitize(page.title@)
    &&& exists|seg: Seq<char>| is_last_segment(page.url@, seg) && s.1 == spec_stream_url(base, seg)
}

/// A title reduced to its alphanumeric characters, for use in a file name.
pub fn sanitize_name(title: &str) -> (r: String)
    ensures
        r@ == spec_sanitize(title@),
{
    let n = title.unicode_len();
    let mut r = String::new();
    let mut i: usize = 0;
    while i < n
        invariant
            n == title@.len(),
            i <= n,
            r@ == title@.take(i as int).filter(|c: char| alphanumeric(c)),
        decreases n - i,
    {
        let c = title.get_char(i);
        proof {
            assert(title@.take(i + 1).drop_last() =~= title@.take(i as int));
            reveal(Seq::filter);
        }
        if is_alphanumeric(c) {
            push_char(&mut r, c);
        }
        i = i + 1;
    }
    proof {
        assert(title@.take(n as int) =~= title@);
    }
    r
}

/// The last `/`-separated segment of an address: a channel's id.
pub fn last_segment(s: &str) -> (r: String)
    ensures
        is_last_segment(s@, r@),
{
    let n = s.unicode_len();
    let mut start: usize = n;
    while start > 0 && s.get_char(start - 1) != '/'
        invariant
            n == s@.len(),
            start <= n,
            forall|i: int| start <= i < n ==> s@[i] != '/',
        decreases start,
    {
        start = start - 1;
    }
    let seg = s.substring_char(start, n);
    String::from_str(seg)
}

/// The address of the audio of the channel whose page is at `page_url`.
pub fn stream_url(base: &str, page_url: &str) -> (r: String)
    ensures
        exists|seg: Seq<char>| is_last_segment(page_url@, seg) && r@ == spec_stream_url(base@, seg),
{
    let seg = last_segment(page_url);
    let mut r = String::from_str(base);
    r.append("listen/");
    r.append(seg.as_str());
    r.append("/channel.mp3");
    r
}

/// The name of the file that the stream `name` is recorded to.
pub fn stream_file_name(name: &str) -> (r: String)
    ensures
        r@ == spec_file_name(name@),
{
    let mut r = String::from_str("stream_");
    r.append(name);
    r.append(".mp3");
    r
}

/// The path, relative to the catalog's base, of the channel list of a place.
pub fn channels_path(place_id: &str) -> (r: String)
    ensures
        r@ == spec_channels_path(place_id@),
{
    let mut r = String::from_str("page/");
    r.append(place_id);
    r.append("/channels");
    r
}

/// The places that lie in `country`, in their order.
pub fn places_in_country(places: &Vec<Place>, country: &str) -> (r: Vec<Place>)
    ensures
        r@.map_values(|p: Place| p@) == places@.map_values(|p: Place| p@).filter(
            |v: (Seq<char>, Seq<char>)| v.1 == country@,
        ),
{
    let wanted = String::from_str(country);
    let mut r: Vec<Place> = Vec::new();
    let mut i: usize = 0;
    while i < places.len()
        invariant
            i <= places@.len(),
            wanted@ == country@,
            r@.map_values(|p: Place| p@) == places@.take(i as int).map_values(|p: Place| p@).filter(
                |v: (Seq<char>, Seq<char>)| v.1 == country@,
            ),
        decreases places@.len() - i,
    {
        let p = &places[i];
        proof {
            assert(places@.take(i + 1).map_values(|p: Place| p@).drop_last() =~= places@.take(
                i as int,
            ).map_values(|p: Place| p@));
            reveal(Seq::filter);
        }
        if p.country == wanted {
            let kept = Place { id: p.id.clone(), country: p.country.clone() };
            let ghost before = r@;
            r.push(kept);
            proof {
                assert(r@.map_values(|p: Place| p@) =~= before.map_values(|p: Place| p@).push(
                    places@[i as int]@,
                ));
            }
        }
        i = i + 1;
    }
    proof {
        assert(places@.take(places@.len() as int) =~= places@);
    }
    r
}

/// The stream that a channel page yields under the catalog base `base`.
pub fn stream_from_page(base: &str, page: &Page) -> (r: Stream)
    ensures
        page_yields(base@, *page, r@),
{
    Stream { name: sanitize_name(page.title.as_str()), url: stream_url(base, page.url.as_str()) }
}

/// The catalog's base address and the streams found under it.
pub struct Listener {
    base: String,
    streams: Vec<Stream>,
}

impl Listener {
    /// The base address, as the URL parser wrote it.
    pub closed spec fn base(&self) -> Seq<char> {
        self.base@
    }

    /// The streams found, in the order the catalog gave them.
    pub closed spec fn spec_streams(&self) -> Seq<(Seq<char>, Seq<char>)> {
        self.streams@.map_values(|s: Stream| s@)
    }

    /// A listener on the catalog at `base_url`, with no streams; `None` where
    /// `base_url` is not an absolute URL.
    pub fn new(base_url: &str) -> (r: Option<Listener>)
        ensures
            match r {
                Some(l) => parsed_url(base_url@) == Some(l.base()) && l.spec_streams().len() == 0,
                None => parsed_url(base_url@) is None,
            },
    {
        match parse_url(base_url) {
            Some(base) => {
                let l = Listener { base, streams: Vec::new() };
                assert(l.spec_streams() =~= Seq::<(Seq<char>, Seq<char>)>::empty());
                Some(l)
            },
            None => None,
        }
    }

    /// The base address.
    pub fn base_url(&self) -> (r: &str)
        ensures
            r@ == self.base(),
    {
        self.base.as_str()
    }

    /// The address of the catalog's list of places.
    pub fn places_url(&self) -> (r: Option<String>)
        ensures
            match r {
                Some(u) => joined_url(self.base(), "places"@) == Some(u@),
                None => joined_url(self.base(), "places"@) is None,
            },
    {
        join_url(self.base.as_str(), "places")
    }

    /// The address of the list of channels of the place `place_id`.
    pub fn channels_url(&self, place_id: &str) -> (r: Option<String>)
        ensures
            match r {
                Some(u) => joined_url(self.base(), spec_channels_path(place_id@)) == Some(u@),
                None => joined_url(self.base(), spec_channels_path(place_id@)) is None,
            },
    {
        let path = channels_path(place_id);
        join_url(self.base.as_str(), path.as_str())
    }

    /// Replaces the streams with those that `pages` yield, one per page in
    /// order, and returns how many there are.
    pub fn replace_streams(&mut self, pages: &Vec<Page>) -> (r: usize)
        ensures
            final(self).base() == old(self).base(),
            r == pages@.len(),
            final(self).spec_streams().len() == pages@.len(),
            forall|i: int|
                0 <= i < pages@.len() ==> page_yields(
                    old(self).base(),
                    #[trigger] pages@[i],
                    final(self).spec_streams()[i],
                ),
    {
        let mut streams: Vec<Stream> = Vec::new();
        let mut i: usize = 0;
        while i < pages.len()
            invariant
                i <= pages@.len(),
                streams@.len() == i,
                forall|j: int|
                    0 <= j < i ==> page_yields(self.base@, #[trigger] pages@[j], streams@[j]@),
            decreases pages@.len() - i,
        {
            let s = stream_from_page(self.base.as_str(), &pages[i]);
            streams.push(s);
            i = i + 1;
        }
        self.streams = streams;
        self.streams.len()
    }

    /// The streams found.
    pub fn streams(&self) -> (r: &Vec<Stream>)
        ensures
            r@.map_values(|s: Stream| s@) == self.spec_streams(),
    {
        &self.streams
    }

    /// The number of streams found.
    pub fn stream_count(&self) -> (r: usize)
        ensures
            r == self.spec_streams().len(),
    {
        self.streams.len()
    }
}

} // verus!
