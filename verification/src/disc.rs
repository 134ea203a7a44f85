//! The disc information that MakeMKV's info command reports: the attributes of the disc, of
//! each of its titles, and of each stream of a title, gathered from the attribute records of
//! the command's output.
//!
//! Titles and streams are kept by their index; an index that no record names holds nothing.
//! A later record of an attribute replaces an earlier one.

use vstd::prelude::*;

use crate::makemkv::{Attribute, DiscAttribute, DiscAttributeView};

verus! {

/// The attributes given by a sequence of entries, a later entry of an attribute replacing an
/// earlier one.
pub open spec fn map_of(s: Seq<(Attribute, Seq<char>)>) -> Map<Attribute, Seq<char>>
    decreases s.len(),
{
    if s.len() == 0 {
        Map::empty()
    } else {
        map_of(s.drop_last()).insert(s.last().0, s.last().1)
    }
}

/// Attributes and their values.
#[derive(Debug)]
pub struct AttributeMap {
    entries: Vec<(Attribute, String)>,
}

/// The entries of an attribute map, with their values as character sequences.
pub open spec fn entry_views(entries: Seq<(Attribute, String)>) -> Seq<(Attribute, Seq<char>)> {
    entries.map_values(|e: (Attribute, String)| (e.0, e.1@))
}

impl View for AttributeMap {
    type V = Map<Attribute, Seq<char>>;

    closed spec fn view(&self) -> Map<Attribute, Seq<char>> {
        map_of(entry_views(self.entries@))
    }
}

impl AttributeMap {
    /// A map without attributes.
    pub fn new() -> (m: AttributeMap)
        ensures
            m@ == Map::<Attribute, Seq<char>>::empty(),
    {
        let m = AttributeMap { entries: Vec::new() };
        assert(entry_views(m.entries@) =~= Seq::<(Attribute, Seq<char>)>::empty());
        m
    }

    /// Sets the value of an attribute, replacing any value it had.
    pub fn insert(&mut self, id: Attribute, value: String)
        ensures
            final(self)@ == old(self)@.insert(id, value@),
    {
        let ghost before = self.entries@;
        self.entries.push((id, value));
        assert(entry_views(self.entries@).drop_last() =~= entry_views(before));
    }

    /// The value of an attribute, if it has one.
    pub fn get(&self, id: Attribute) -> (r: Option<&String>)
        ensures
            match r {
                Some(v) => self@.contains_key(id) && v@ == self@[id],
                None => !self@.contains_key(id),
            },
    {
        let ghost sv = entry_views(self.entries@);
        let mut i = self.entries.len();
        assert(sv.take(i as int) =~= sv);
        while i > 0
            invariant
                i <= self.entries.len(),
                sv == entry_views(self.entries@),
                map_of(sv).contains_key(id) == map_of(sv.take(i as int)).contains_key(id),
                map_of(sv).contains_key(id) ==> map_of(sv)[id] == map_of(sv.take(i as int))[id],
            decreases i,
        {
            i = i - 1;
            assert(sv.take(i + 1).drop_last() =~= sv.take(i as int));
            assert(sv.take(i + 1).last() == sv[i as int]);
            if self.entries[i].0 == id {
                return Some(&self.entries[i].1);
            }
        }
        assert(sv.take(0) =~= Seq::<(Attribute, Seq<char>)>::empty());
        None
    }
}

/// The information about a stream of a title.
#[derive(Debug)]
pub struct StreamInfo {
    pub attributes: AttributeMap,
}

/// The information about a title: its attributes and its streams by index.
#[derive(Debug)]
pub struct TitleInfo {
    pub attributes: AttributeMap,
    pub streams: Vec<Option<StreamInfo>>,
}

/// The information about a disc: its attributes and its titles by index.
#[derive(Debug)]
pub struct DiscInfo {
    pub attributes: AttributeMap,
    pub titles: Vec<Option<TitleInfo>>,
}

/// The view of a title: its attributes, and the attributes of its streams by index.
pub struct TitleView {
    pub attributes: Map<Attribute, Seq<char>>,
    pub streams: Seq<Option<Map<Attribute, Seq<char>>>>,
}

/// The view of a disc: its attributes, and its titles by index.
pub struct DiscInfoView {
    pub attributes: Map<Attribute, Seq<char>>,
    pub titles: Seq<Option<TitleView>>,
}

/// The view of an optional stream.
pub open spec fn stream_view(s: Option<StreamInfo>) -> Option<Map<Attribute, Seq<char>>> {
    match s {
        Some(x) => Some(x.attributes@),
        None => None,
    }
}

impl View for TitleInfo {
    type V = TitleView;

    open spec fn view(&self) -> TitleView {
        TitleView {
            attributes: self.attributes@,
            streams: self.streams@.map_values(|s: Option<StreamInfo>| stream_view(s)),
        }
    }
}

/// The view of an optional title.
pub open spec fn title_view(t: Option<TitleInfo>) -> Option<TitleView> {
    match t {
        Some(x) => Some(x@),
        None => None,
    }
}

impl View for DiscInfo {
    type V = DiscInfoView;

    open spec fn view(&self) -> DiscInfoView {
        DiscInfoView {
            attributes: self.attributes@,
            titles: self.titles@.map_values(|t: Option<TitleInfo>| title_view(t)),
        }
    }
}

/// The entries, extended with nothing up to length `n`.
pub open spec fn padded<T>(s: Seq<Option<T>>, n: int) -> Seq<Option<T>> {
    if s.len() >= n {
        s
    } else {
        s + Seq::new((n - s.len()) as nat, |i: int| None)
    }
}

/// An attribute map, or the empty one.
pub open spec fn attributes_or_empty(m: Option<Map<Attribute, Seq<char>>>) -> Map<
    Attribute,
    Seq<char>,
> {
    match m {
        Some(x) => x,
        None => Map::empty(),
    }
}

/// A title, or the title without attributes and streams.
pub open spec fn title_or_empty(t: Option<TitleView>) -> TitleView {
    match t {
        Some(x) => x,
        None => TitleView { attributes: Map::empty(), streams: Seq::empty() },
    }
}

/// The disc information with an attribute of the disc set.
pub open spec fn with_disc_attribute(d: DiscInfoView, id: Attribute, value: Seq<char>) -> DiscInfoView {
    DiscInfoView { attributes: d.attributes.insert(id, value), titles: d.titles }
}

/// The disc information with an attribute of title `t` set, the title created if needed.
pub open spec fn with_title_attribute(d: DiscInfoView, t: int, id: Attribute, value: Seq<char>) -> DiscInfoView {
    let titles = padded(d.titles, t + 1);
    let title = title_or_empty(titles[t]);
    DiscInfoView {
        attributes: d.attributes,
        titles: titles.update(
            t,
            Some(TitleView { attributes: title.attributes.insert(id, value), streams: title.streams }),
        ),
    }
}

/// The disc information with an attribute of stream `s` of title `t` set, the title and the
/// stream created if needed.
pub open spec fn with_stream_attribute(
    d: DiscInfoView,
    t: int,
    s: int,
    id: Attribute,
    value: Seq<char>,
) -> DiscInfoView {
    let titles = padded(d.titles, t + 1);
    let title = title_or_empty(titles[t]);
    let streams = padded(title.streams, s + 1);
    DiscInfoView {
        attributes: d.attributes,
        titles: titles.update(
            t,
            Some(
                TitleView {
                    attributes: title.attributes,
                    streams: streams.update(s, Some(attributes_or_empty(streams[s]).insert(id, value))),
                },
            ),
        ),
    }
}

impl TitleInfo {
    /// A title without attributes and streams.
    pub fn new() -> (t: TitleInfo)
        ensures
            t@ == title_or_empty(None),
    {
        let t = TitleInfo { attributes: AttributeMap::new(), streams: Vec::new() };
        assert(t@.streams =~= Seq::<Option<Map<Attribute, Seq<char>>>>::empty());
        t
    }

    /// Sets an attribute of stream `s`, creating the stream if needed.
    pub fn add_stream_attribute(&mut self, s: usize, id: Attribute, value: String)
        requires
            s < usize::MAX,
        ensures
            final(self)@.attributes == old(self)@.attributes,
            final(self)@.streams == padded(old(self)@.streams, s + 1).update(
                s as int,
                Some(attributes_or_empty(padded(old(self)@.streams, s + 1)[s as int]).insert(id, value@)),
            ),
    {
        let ghost start = self@.streams;
        while self.streams.len() <= s
            invariant
                s < usize::MAX,
                self.attributes@ == old(self).attributes@,
                start == old(self)@.streams,
                start.len() <= self.streams@.len(),
                start.len() <= s + 1 ==> self.streams@.len() <= s + 1,
                start.len() > s + 1 ==> self.streams@.len() == start.len(),
                self@.streams =~= padded(start, self.streams@.len() as int),
            decreases s + 1 - self.streams.len(),
        {
            let ghost n = self.streams@.len() as int;
            let ghost before = self@.streams;
            self.streams.push(None);
            assert(self@.streams =~= before.push(None));
            assert(padded(start, n + 1) =~= padded(start, n).push(None));
        }
        assert(self@.streams =~= padded(start, s + 1));
        let entry = self.streams.remove(s);
        let mut stream = match entry {
            Some(x) => x,
            None => StreamInfo { attributes: AttributeMap::new() },
        };
        stream.attributes.insert(id, value);
        self.streams.insert(s, Some(stream));
        assert(self@.streams =~= padded(start, s + 1).update(
            s as int,
            Some(attributes_or_empty(padded(start, s + 1)[s as int]).insert(id, value@)),
        ));
    }
}

impl DiscInfo {
    /// A disc without attributes and titles.
    pub fn new() -> (d: DiscInfo)
        ensures
            d@.attributes == Map::<Attribute, Seq<char>>::empty(),
            d@.titles.len() == 0,
    {
        DiscInfo { attributes: AttributeMap::new(), titles: Vec::new() }
    }

    /// Extends the titles with nothing up to index `t`, and takes title `t` out, or a new
    /// title where there was none.
    fn take_title(&mut self, t: usize) -> (title: TitleInfo)
        requires
            t < usize::MAX,
        ensures
            final(self)@.attributes == old(self)@.attributes,
            final(self).titles@.len() == padded(old(self)@.titles, t + 1).len() - 1,
            title@ == title_or_empty(padded(old(self)@.titles, t + 1)[t as int]),
            forall|title2: TitleInfo|
                #![trigger title_view(Some(title2))]
                final(self).titles@.insert(t as int, Some(title2)).map_values(
                    |x: Option<TitleInfo>| title_view(x),
                ) == padded(old(self)@.titles, t + 1).update(t as int, Some(title2@)),
    {
        let ghost start = self@.titles;
        while self.titles.len() <= t
            invariant
                t < usize::MAX,
                self.attributes@ == old(self).attributes@,
                start == old(self)@.titles,
                start.len() <= self.titles@.len(),
                start.len() <= t + 1 ==> self.titles@.len() <= t + 1,
                start.len() > t + 1 ==> self.titles@.len() == start.len(),
                self@.titles =~= padded(start, self.titles@.len() as int),
            decreases t + 1 - self.titles.len(),
        {
            let ghost n = self.titles@.len() as int;
            let ghost before = self@.titles;
            self.titles.push(None);
            assert(self@.titles =~= before.push(None));
            assert(padded(start, n + 1) =~= padded(start, n).push(None));
        }
        assert(self@.titles =~= padded(start, t + 1));
        let ghost full = self.titles@;
        let entry = self.titles.remove(t);
        assert(entry == full[t as int]);
        assert forall|title2: TitleInfo| #![trigger title_view(Some(title2))]
            self.titles@.insert(t as int, Some(title2)).map_values(|x: Option<TitleInfo>| title_view(x))
                == padded(start, t + 1).update(t as int, Some(title2@)) by {
            assert(self.titles@.insert(t as int, Some(title2)).map_values(|x: Option<TitleInfo>| title_view(x))
                =~= padded(start, t + 1).update(t as int, Some(title2@)));
        }
        match entry {
            Some(x) => x,
            None => TitleInfo::new(),
        }
    }

    /// Sets an attribute of the disc.
    pub fn add_attribute(&mut self, id: Attribute, value: String)
        ensures
            final(self)@ == with_disc_attribute(old(self)@, id, value@),
    {
        self.attributes.insert(id, value);
    }

    /// Sets an attribute of title `t`, creating the title if needed.
    pub fn add_title_attribute(&mut self, t: usize, id: Attribute, value: String)
        requires
            t < usize::MAX,
        ensures
            final(self)@ == with_title_attribute(old(self)@, t as int, id, value@),
    {
        let mut title = self.take_title(t);
        title.attributes.insert(id, value);
        let ghost rest = self.titles@;
        assert(title_view(Some(title)) == Some(title@));
        self.titles.insert(t, Some(title));
        assert(self.titles@ == rest.insert(t as int, Some(title)));
        assert(self@.titles =~= with_title_attribute(old(self)@, t as int, id, value@).titles);
    }

    /// Sets an attribute of stream `s` of title `t`, creating the title and the stream if
    /// needed.
    pub fn add_stream_attribute(&mut self, t: usize, s: usize, id: Attribute, value: String)
        requires
            t < usize::MAX,
            s < usize::MAX,
        ensures
            final(self)@ == with_stream_attribute(old(self)@, t as int, s as int, id, value@),
    {
        let mut title = self.take_title(t);
        title.add_stream_attribute(s, id, value);
        let ghost rest = self.titles@;
        assert(title_view(Some(title)) == Some(title@));
        self.titles.insert(t, Some(title));
        assert(self.titles@ == rest.insert(t as int, Some(title)));
        assert(self@.titles =~= with_stream_attribute(old(self)@, t as int, s as int, id, value@).titles);
    }
}

/// An attribute set on a title is read back from that title, and the disc's attributes and
/// every other title stay as they were.
pub proof fn lemma_title_attribute_read_back(
    d: DiscInfoView,
    t: int,
    id: Attribute,
    value: Seq<char>,
    u: int,
)
    requires
        t >= 0,
    ensures
        with_title_attribute(d, t, id, value).attributes == d.attributes,
        with_title_attribute(d, t, id, value).titles.len() == if d.titles.len() > t {
            d.titles.len() as int
        } else {
            t + 1
        },
        with_title_attribute(d, t, id, value).titles[t] matches Some(x) && x.attributes.contains_key(id)
            && x.attributes[id] == value,
        0 <= u < d.titles.len() && u != t ==> with_title_attribute(d, t, id, value).titles[u]
            == d.titles[u],
{
}

/// An attribute set on a stream is read back from that stream of that title, and the other
/// streams of the title and the title's own attributes stay as they were.
pub proof fn lemma_stream_attribute_read_back(
    d: DiscInfoView,
    t: int,
    s: int,
    id: Attribute,
    value: Seq<char>,
    u: int,
)
    requires
        t >= 0,
        s >= 0,
    ensures
        with_stream_attribute(d, t, s, id, value).attributes == d.attributes,
        ({
            let x = with_stream_attribute(d, t, s, id, value).titles[t];
            let before = title_or_empty(padded(d.titles, t + 1)[t]);
            &&& x is Some
            &&& x->0.attributes == before.attributes
            &&& x->0.streams[s] is Some
            &&& x->0.streams[s]->0.contains_key(id)
            &&& x->0.streams[s]->0[id] == value
            &&& (0 <= u < before.streams.len() && u != s ==> x->0.streams[u] == before.streams[u])
        }),
{
}

/// The disc information after one more attribute record. A record with a negative index names
/// no title or stream and is passed over.
pub open spec fn with_record(d: DiscInfoView, r: DiscAttributeView) -> DiscInfoView {
    match r {
        DiscAttributeView::Disc { id, value } => with_disc_attribute(d, id, value),
        DiscAttributeView::Title { title_index, id, value } => if title_index >= 0 {
            with_title_attribute(d, title_index as int, id, value)
        } else {
            d
        },
        DiscAttributeView::Stream { title_index, stream_index, id, value } => if title_index >= 0
            && stream_index >= 0 {
            with_stream_attribute(d, title_index as int, stream_index as int, id, value)
        } else {
            d
        },
    }
}

/// The disc information that a sequence of attribute records gives, taken in order.
pub open spec fn disc_info_of_records(rs: Seq<DiscAttributeView>) -> DiscInfoView
    decreases rs.len(),
{
    if rs.len() == 0 {
        DiscInfoView { attributes: Map::empty(), titles: Seq::empty() }
    } else {
        with_record(disc_info_of_records(rs.drop_last()), rs.last())
    }
}

/// The last record gathered is read back where it names: a disc record from the disc's
/// attributes, a title record from title `t`, and a stream record from stream `s` of title
/// `t`, for indexes that are not negative. A record with a negative index changes nothing.
pub proof fn lemma_last_record_read_back(rs: Seq<DiscAttributeView>, r: DiscAttributeView)
    ensures
        ({
            let d = disc_info_of_records(rs.push(r));
            let before = disc_info_of_records(rs);
            match r {
                DiscAttributeView::Disc { id, value } => {
                    &&& d.attributes.contains_key(id)
                    &&& d.attributes[id] == value
                    &&& d.titles == before.titles
                },
                DiscAttributeView::Title { title_index, id, value } => if title_index >= 0 {
                    &&& d.attributes == before.attributes
                    &&& title_index < d.titles.len()
                    &&& d.titles[title_index as int] is Some
                    &&& d.titles[title_index as int]->0.attributes.contains_key(id)
                    &&& d.titles[title_index as int]->0.attributes[id] == value
                } else {
                    d == before
                },
                DiscAttributeView::Stream { title_index, stream_index, id, value } => if title_index
                    >= 0 && stream_index >= 0 {
                    &&& d.attributes == before.attributes
                    &&& title_index < d.titles.len()
                    &&& d.titles[title_index as int] is Some
                    &&& stream_index < d.titles[title_index as int]->0.streams.len()
                    &&& d.titles[title_index as int]->0.streams[stream_index as int] is Some
                    &&& d.titles[title_index as int]->0.streams[stream_index as int]->0.contains_key(id)
                    &&& d.titles[title_index as int]->0.streams[stream_index as int]->0[id] == value
                } else {
                    d == before
                },
            }
        }),
{
    let all = rs.push(r);
    assert(all.drop_last() =~= rs);
    let before = disc_info_of_records(rs);
    match r {
        DiscAttributeView::Title { title_index, id, value } => {
            if title_index >= 0 {
                lemma_title_attribute_read_back(before, title_index as int, id, value, 0);
            }
        },
        DiscAttributeView::Stream { title_index, stream_index, id, value } => {
            if title_index >= 0 && stream_index >= 0 {
                lemma_stream_attribute_read_back(
                    before,
                    title_index as int,
                    stream_index as int,
                    id,
                    value,
                    0,
                );
            }
        },
        _ => {},
    }
}

/// A record of one title leaves every other title as it was, and a record of a stream leaves
/// every other title, and the other streams of its own title, as they were.
pub proof fn lemma_record_touches_only_its_place(rs: Seq<DiscAttributeView>, r: DiscAttributeView, u: int, v: int)
    ensures
        ({
            let d = disc_info_of_records(rs.push(r));
            let before = disc_info_of_records(rs);
            match r {
                DiscAttributeView::Disc { .. } => d.titles == before.titles,
                DiscAttributeView::Title { title_index, .. } => 0 <= u < before.titles.len() && u
                    != title_index ==> d.titles[u] == before.titles[u],
                DiscAttributeView::Stream { title_index, stream_index, .. } => {
                    &&& (0 <= u < before.titles.len() && u != title_index ==> d.titles[u]
                        == before.titles[u])
                    &&& (title_index >= 0 && stream_index >= 0 && 0 <= title_index < before.titles.len()
                        && before.titles[title_index as int] is Some && 0 <= v
                        < before.titles[title_index as int]->0.streams.len() && v != stream_index
                        ==> d.titles[title_index as int]->0.streams[v]
                        == before.titles[title_index as int]->0.streams[v])
                },
            }
        }),
{
    let all = rs.push(r);
    assert(all.drop_last() =~= rs);
    let before = disc_info_of_records(rs);
    match r {
        DiscAttributeView::Title { title_index, id, value } => {
            if title_index >= 0 {
                lemma_title_attribute_read_back(before, title_index as int, id, value, u);
            }
        },
        DiscAttributeView::Stream { title_index, stream_index, id, value } => {
            if title_index >= 0 && stream_index >= 0 {
                lemma_stream_attribute_read_back(
                    before,
                    title_index as int,
                    stream_index as int,
                    id,
                    value,
                    v,
                );
            }
        },
        _ => {},
    }
}

/// Gathers the attribute records of the info command into the disc information.
pub fn disc_info_of(records: &Vec<DiscAttribute>) -> (d: DiscInfo)
    ensures
        d@ == disc_info_of_records(records@.map_values(|r: DiscAttribute| r@)),
{
    let ghost views = records@.map_values(|r: DiscAttribute| r@);
    let mut info = DiscInfo::new();
    assert(views.take(0).len() == 0);
    assert(info@.titles =~= Seq::<Option<TitleView>>::empty());
    assert(info@ == disc_info_of_records(views.take(0)));
    let mut i: usize = 0;
    while i < records.len()
        invariant
            i <= records.len(),
            views == records@.map_values(|r: DiscAttribute| r@),
            info@ == disc_info_of_records(views.take(i as int)),
        decreases records.len() - i,
    {
        assert(views.take(i + 1).drop_last() =~= views.take(i as int));
        assert(views.take(i + 1).last() == records@[i as int]@);
        match &records[i] {
            DiscAttribute::Disc { id, value } => {
                info.add_attribute(*id, value.clone());
            },
            DiscAttribute::Title { title_index, id, value } => {
                if *title_index >= 0 {
                    info.add_title_attribute(*title_index as usize, *id, value.clone());
                }
            },
            DiscAttribute::Stream { title_index, stream_index, id, value } => {
                if *title_index >= 0 && *stream_index >= 0 {
                    info.add_stream_attribute(
                        *title_index as usize,
                        *stream_index as usize,
                        *id,
                        value.clone(),
                    );
                }
            },
        }
        i = i + 1;
    }
    assert(views.take(records.len() as int) =~= views);
    info
}

} // verus!
