use vstd::prelude::*;
use vstd::slice::slice_to_vec;
use vstd::utf8::encode_utf8;

use crate::buffer::{bytes_content, bytes_from_static, bytes_from_vec};
use crate::error::Error;

verus! {

broadcast use vstd::seq_lib::group_seq_properties;

/// What one pull from a source delivers, as values: a chunk, or a failure.
pub type Pull = Result<Seq<u8>, Error>;

/// Drains `pulls` in order: chunks are concatenated until the first failure,
/// which is the result on its own.
pub open spec fn drained(pulls: Seq<Pull>) -> Result<Seq<u8>, Error>
    decreases pulls.len(),
{
    if pulls.len() == 0 {
        Ok(Seq::empty())
    } else {
        match drained(pulls.drop_last()) {
            Err(e) => Err(e),
            Ok(buf) => match pulls.last() {
                Ok(chunk) => Ok(buf + chunk),
                Err(e) => Err(e),
            },
        }
    }
}

/// The pulls of a stream whose items are the given chunk results.
pub open spec fn stream_pulls(items: Seq<Result<Vec<u8>, Error>>) -> Seq<Pull> {
    items.map_values(
        |r: Result<Vec<u8>, Error>|
            match r {
                Ok(c) => Ok(c@),
                Err(e) => Err(e),
            },
    )
}

/// The pulls of a source that holds `bytes` in one piece: one chunk, or none
/// when there is nothing to deliver.
pub open spec fn whole_pulls(bytes: Seq<u8>) -> Seq<Pull> {
    if bytes.len() == 0 {
        Seq::empty()
    } else {
        seq![Ok(bytes)]
    }
}

/// A prefix that fails makes the whole sequence fail with the same error.
pub proof fn lemma_drained_failed_prefix(pulls: Seq<Pull>, i: int)
    requires
        0 <= i <= pulls.len(),
        drained(pulls.take(i)) is Err,
    ensures
        drained(pulls) == drained(pulls.take(i)),
    decreases pulls.len() - i,
{
    if i < pulls.len() {
        assert(pulls.take(i + 1).drop_last() == pulls.take(i));
        lemma_drained_failed_prefix(pulls, i + 1);
    } else {
        assert(pulls.take(i) == pulls);
    }
}

/// Accumulates the chunks of a source, in the order they are pulled.
pub struct Collector {
    buf: Vec<u8>,
}

impl Collector {
    /// The bytes collected so far.
    pub closed spec fn collected(&self) -> Seq<u8> {
        self.buf@
    }

    pub fn new() -> (r: Collector)
        ensures
            r.collected() == Seq::<u8>::empty(),
    {
        Collector { buf: Vec::new() }
    }

    /// Appends one chunk after those collected before.
    pub fn push(&mut self, chunk: &[u8])
        ensures
            final(self).collected() == old(self).collected() + chunk@,
    {
        self.buf.extend_from_slice(chunk);
    }

    pub fn finish(self) -> (r: Vec<u8>)
        ensures
            r@ == self.collected(),
    {
        self.buf
    }
}

/// A drain in progress: the pulls taken so far were all chunks, and their
/// bytes are gathered in order.
pub struct Drain {
    pulled: Ghost<Seq<Pull>>,
    acc: Collector,
}

/// What a drain does after a pull: go on, or end with its outcome.
pub enum Progress {
    Continue(Drain),
    Done(Result<Vec<u8>, Error>),
}

impl Drain {
    /// The pulls taken so far.
    pub closed spec fn pulled(&self) -> Seq<Pull> {
        self.pulled@
    }

    pub closed spec fn wf(&self) -> bool {
        drained(self.pulled@) == Ok::<Seq<u8>, Error>(self.acc.collected())
    }

    pub fn new() -> (r: Drain)
        ensures
            r.wf(),
            r.pulled() == Seq::<Pull>::empty(),
    {
        Drain { pulled: Ghost(Seq::empty()), acc: Collector::new() }
    }

    /// Takes the outcome of one pull from the source: a chunk, a failure, or
    /// `None` for the end of data. A chunk is gathered and the drain goes on;
    /// a failure ends it with that failure and nothing gathered; the end of
    /// data ends it with all the chunks, in order.
    pub fn step(self, pull: Option<Result<Vec<u8>, Error>>) -> (r: Progress)
        requires
            self.wf(),
        ensures
            match pull {
                None => r is Done && same_outcome(r->Done_0, drained(self.pulled())),
                Some(Ok(c)) => r is Continue && r->Continue_0.wf()
                    && r->Continue_0.pulled() == self.pulled().push(Ok(c@)),
                Some(Err(e)) => r is Done && r->Done_0 == Err::<Vec<u8>, Error>(e)
                    && drained(self.pulled().push(Err(e))) == Err::<Seq<u8>, Error>(e),
            },
    {
        let Drain { pulled, acc } = self;
        let mut acc = acc;
        match pull {
            None => Progress::Done(Ok(acc.finish())),
            Some(Ok(chunk)) => {
                acc.push(chunk.as_slice());
                let ghost next = pulled@.push(Ok(chunk@));
                assert(next.drop_last() =~= pulled@);
                Progress::Continue(Drain { pulled: Ghost(next), acc })
            },
            Some(Err(e)) => {
                assert(pulled@.push(Err(e)).drop_last() =~= pulled@);
                Progress::Done(Err(e))
            },
        }
    }
}

/// Drains a sequence of chunk results: the concatenation of the chunks, or the
/// first failure.
pub fn drain_items(items: Vec<Result<Vec<u8>, Error>>) -> (r: Result<Vec<u8>, Error>)
    ensures
        same_outcome(r, drained(stream_pulls(items@))),
{
    let mut rest = items;
    let ghost pulls = stream_pulls(items@);
    let mut d = Drain::new();
    loop
        invariant
            pulls == stream_pulls(items@),
            d.wf(),
            d.pulled().len() + rest@.len() == pulls.len(),
            d.pulled() == pulls.take(d.pulled().len() as int),
            stream_pulls(rest@) == pulls.skip(d.pulled().len() as int),
        decreases rest@.len(),
    {
        let ghost k = d.pulled().len() as int;
        if rest.len() == 0 {
            assert(pulls.take(k) == pulls);
            match d.step(None) {
                Progress::Done(r) => {
                    return r;
                },
                Progress::Continue(_) => {
                    proof {
                        assert(false);
                    }
                    return Ok(Vec::new());
                },
            }
        }
        let item = rest.remove(0);
        assert(stream_pulls(rest@) == pulls.skip(k + 1));
        assert(pulls[k] == stream_pulls(seq![item])[0]);
        assert(pulls.take(k + 1) == d.pulled().push(pulls[k]));
        match d.step(Some(item)) {
            Progress::Continue(n) => {
                d = n;
            },
            Progress::Done(r) => {
                proof {
                    lemma_drained_failed_prefix(pulls, k + 1);
                }
                return r;
            },
        }
    }
}

/// A source that holds `bytes` in one piece drains to exactly those bytes.
pub proof fn lemma_drained_whole(bytes: Seq<u8>)
    ensures
        drained(whole_pulls(bytes)) == Ok::<Seq<u8>, Error>(bytes),
{
    if bytes.len() != 0 {
        assert(whole_pulls(bytes).drop_last() == Seq::<Pull>::empty());
        assert(drained(Seq::<Pull>::empty()) == Ok::<Seq<u8>, Error>(Seq::empty()));
        assert(Seq::<u8>::empty() + bytes == bytes);
    } else {
        assert(bytes == Seq::<u8>::empty());
    }
}

/// Whether an executable drain outcome is the drained value `d`.
pub open spec fn same_outcome(r: Result<Vec<u8>, Error>, d: Result<Seq<u8>, Error>) -> bool {
    match (r, d) {
        (Ok(b), Ok(s)) => b@ == s,
        (Err(e), Err(f)) => e == f,
        _ => false,
    }
}

/// Whether an executable drain outcome, as a shared buffer, is the drained
/// value `d`.
pub open spec fn buffer_outcome(r: Result<bytes::Bytes, Error>, d: Result<Seq<u8>, Error>) -> bool {
    match (r, d) {
        (Ok(b), Ok(s)) => bytes_content(b) == s,
        (Err(e), Err(f)) => e == f,
        _ => false,
    }
}

/// Where the bytes of a body come from.
pub enum Source {
    /// Nothing: the end of data comes at once.
    Empty,
    /// An owned buffer, delivered as one chunk.
    Full(Vec<u8>),
    /// A fixed byte slice, delivered as one chunk.
    Static(&'static [u8]),
    /// Owned text, delivered as its UTF-8 bytes in one chunk.
    Text(String),
    /// Fixed text, delivered as its UTF-8 bytes in one chunk.
    StaticText(&'static str),
    /// A shared buffer, delivered as one chunk.
    Shared(bytes::Bytes),
    /// A stream of chunk results, pulled one at a time in order.
    Stream(Vec<Result<Vec<u8>, Error>>),
    /// A value that is already a body.
    Boxed(Box<Body>),
}

impl Source {
    /// The pulls this source delivers, in order.
    pub open spec fn pulls(self) -> Seq<Pull>
        decreases self,
    {
        match self {
            Source::Empty => Seq::empty(),
            Source::Full(v) => whole_pulls(v@),
            Source::Static(b) => whole_pulls(b@),
            Source::Text(t) => whole_pulls(encode_utf8(t@)),
            Source::StaticText(t) => whole_pulls(encode_utf8(t@)),
            Source::Shared(b) => whole_pulls(bytes_content(b)),
            Source::Stream(items) => stream_pulls(items@),
            Source::Boxed(b) => b.pulls(),
        }
    }

    /// Whether the source holds its bytes in one piece.
    pub open spec fn is_whole(self) -> bool {
        self is Full || self is Static || self is Text || self is StaticText || self is Shared
    }

    /// The bytes a source in one piece holds: text as its UTF-8 encoding.
    pub open spec fn held_bytes(self) -> Seq<u8> {
        match self {
            Source::Full(v) => v@,
            Source::Static(b) => b@,
            Source::Text(t) => encode_utf8(t@),
            Source::StaticText(t) => encode_utf8(t@),
            Source::Shared(b) => bytes_content(b),
            _ => Seq::empty(),
        }
    }
}

/// A body built from a value in one piece drains to exactly the bytes of
/// that value.
pub proof fn lemma_whole_source_drains_to_its_bytes(source: Source)
    requires
        source.is_whole(),
    ensures
        Body::new_spec(source).content() == Ok::<Seq<u8>, Error>(source.held_bytes()),
{
    lemma_drained_whole(source.held_bytes());
}

/// Draining a stream whose items are all chunks gives their concatenation,
/// in order.
pub proof fn lemma_stream_of_chunks_drains_to_concatenation(items: Seq<Result<Vec<u8>, Error>>)
    requires
        forall|i: int| 0 <= i < items.len() ==> (#[trigger] items[i]) is Ok,
    ensures
        drained(stream_pulls(items)) == Ok::<Seq<u8>, Error>(
            items.map_values(|r: Result<Vec<u8>, Error>| r->Ok_0@).flatten(),
        ),
    decreases items.len(),
{
    let chunks = items.map_values(|r: Result<Vec<u8>, Error>| r->Ok_0@);
    if items.len() == 0 {
        assert(stream_pulls(items) == Seq::<Pull>::empty());
    } else {
        let front = items.drop_last();
        assert forall|i: int| 0 <= i < front.len() implies (#[trigger] front[i]) is Ok by {
            assert(front[i] == items[i]);
        }
        lemma_stream_of_chunks_drains_to_concatenation(front);
        assert(stream_pulls(items).drop_last() == stream_pulls(front));
        let front_chunks = front.map_values(|r: Result<Vec<u8>, Error>| r->Ok_0@);
        assert(chunks == front_chunks.push(items.last()->Ok_0@));
        front_chunks.lemma_flatten_push(items.last()->Ok_0@);
    }
}

/// Draining a stream whose first failure is the item at `k` fails with that
/// item's error; the chunks before it are not delivered.
pub proof fn lemma_stream_failure_is_delivered(items: Seq<Result<Vec<u8>, Error>>, k: int)
    requires
        0 <= k < items.len(),
        items[k] is Err,
        forall|i: int| 0 <= i < k ==> (#[trigger] items[i]) is Ok,
    ensures
        drained(stream_pulls(items)) == Err::<Seq<u8>, Error>(items[k]->Err_0),
{
    let pulls = stream_pulls(items);
    lemma_stream_of_chunks_drains_to_concatenation(items.take(k));
    assert(stream_pulls(items.take(k)) == pulls.take(k));
    assert(pulls.take(k + 1).drop_last() == pulls.take(k));
    assert(pulls.take(k + 1).last() == pulls[k]);
    lemma_drained_failed_prefix(pulls, k + 1);
}

/// The body of an HTTP message: it owns exactly one source of bytes, and is
/// consumed by draining it.
pub struct Body {
    pub source: Source,
}

impl Body {
    /// The pulls the body's source delivers, in order.
    pub open spec fn pulls(self) -> Seq<Pull>
        decreases self,
    {
        self.source.pulls()
    }

    /// The body that wraps `source`, as `new` builds it.
    pub open spec fn new_spec(source: Source) -> Body {
        match source {
            Source::Boxed(b) => *b,
            other => Body { source: other },
        }
    }

    /// What draining the body gives.
    pub open spec fn content(self) -> Result<Seq<u8>, Error> {
        drained(self.pulls())
    }

    /// Wraps a source. A source that is already a body is handed back as it
    /// is, with no further layer around it.
    pub fn new(source: Source) -> (r: Body)
        ensures
            r == Body::new_spec(source),
            r.pulls() == source.pulls(),
            source is Boxed ==> r == *source->Boxed_0,
    {
        match source {
            Source::Boxed(b) => *b,
            other => Body { source: other },
        }
    }

    /// A body with no chunks.
    pub fn empty() -> (r: Body)
        ensures
            r == (Body { source: Source::Empty }),
            r.pulls() == Seq::<Pull>::empty(),
            r.content() == Ok::<Seq<u8>, Error>(Seq::empty()),
    {
        Body::new(Source::Empty)
    }

    /// A body whose chunks are the given results, pulled in order.
    pub fn from_stream(items: Vec<Result<Vec<u8>, Error>>) -> (r: Body)
        ensures
            r == (Body { source: Source::Stream(items) }),
            r.pulls() == stream_pulls(items@),
    {
        Body::new(Source::Stream(items))
    }

    /// Pulls every chunk in order and concatenates them; stops at the first
    /// failure and returns it, with nothing of what was gathered.
    pub fn to_bytes(self) -> (r: Result<bytes::Bytes, Error>)
        ensures
            buffer_outcome(r, self.content()),
        decreases self,
    {
        match self.source {
            Source::Empty => Ok(bytes_from_vec(Vec::new())),
            Source::Full(v) => {
                proof {
                    lemma_drained_whole(v@);
                }
                Ok(bytes_from_vec(v))
            },
            Source::Static(b) => {
                proof {
                    lemma_drained_whole(b@);
                }
                Ok(bytes_from_static(b))
            },
            Source::Text(t) => {
                proof {
                    lemma_drained_whole(encode_utf8(t@));
                }
                Ok(bytes_from_vec(slice_to_vec(t.as_str().as_bytes())))
            },
            Source::StaticText(t) => {
                proof {
                    lemma_drained_whole(encode_utf8(t@));
                }
                Ok(bytes_from_static(t.as_bytes()))
            },
            Source::Shared(b) => {
                proof {
                    lemma_drained_whole(bytes_content(b));
                }
                Ok(b)
            },
            Source::Stream(items) => match drain_items(items) {
                Ok(v) => Ok(bytes_from_vec(v)),
                Err(e) => Err(e),
            },
            Source::Boxed(b) => b.to_bytes(),
        }
    }
}

impl From<()> for Body {
    fn from(_v: ()) -> Body {
        Body::new(Source::Empty)
    }
}

impl vstd::std_specs::convert::FromSpecImpl<()> for Body {
    open spec fn obeys_from_spec() -> bool {
        true
    }

    open spec fn from_spec(_v: ()) -> Body {
        Body { source: Source::Empty }
    }
}

impl From<Vec<u8>> for Body {
    fn from(v: Vec<u8>) -> Body {
        Body::new(Source::Full(v))
    }
}

impl vstd::std_specs::convert::FromSpecImpl<Vec<u8>> for Body {
    open spec fn obeys_from_spec() -> bool {
        true
    }

    open spec fn from_spec(v: Vec<u8>) -> Body {
        Body { source: Source::Full(v) }
    }
}

impl From<&'static [u8]> for Body {
    fn from(v: &'static [u8]) -> Body {
        Body::new(Source::Static(v))
    }
}

impl vstd::std_specs::convert::FromSpecImpl<&'static [u8]> for Body {
    open spec fn obeys_from_spec() -> bool {
        true
    }

    open spec fn from_spec(v: &'static [u8]) -> Body {
        Body { source: Source::Static(v) }
    }
}

impl From<String> for Body {
    fn from(v: String) -> Body {
        Body::new(Source::Text(v))
    }
}

impl vstd::std_specs::convert::FromSpecImpl<String> for Body {
    open spec fn obeys_from_spec() -> bool {
        true
    }

    open spec fn from_spec(v: String) -> Body {
        Body { source: Source::Text(v) }
    }
}

impl From<&'static str> for Body {
    fn from(v: &'static str) -> Body {
        Body::new(Source::StaticText(v))
    }
}

impl vstd::std_specs::convert::FromSpecImpl<&'static str> for Body {
    open spec fn obeys_from_spec() -> bool {
        true
    }

    open spec fn from_spec(v: &'static str) -> Body {
        Body { source: Source::StaticText(v) }
    }
}

impl From<bytes::Bytes> for Body {
    fn from(v: bytes::Bytes) -> Body {
        Body::new(Source::Shared(v))
    }
}

impl vstd::std_specs::convert::FromSpecImpl<bytes::Bytes> for Body {
    open spec fn obeys_from_spec() -> bool {
        true
    }

    open spec fn from_spec(v: bytes::Bytes) -> Body {
        Body { source: Source::Shared(v) }
    }
}

impl From<std::borrow::Cow<'static, [u8]>> for Body {
    fn from(v: std::borrow::Cow<'static, [u8]>) -> Body {
        match v {
            std::borrow::Cow::Borrowed(b) => Body::new(Source::Static(b)),
            std::borrow::Cow::Owned(o) => Body::new(Source::Full(o)),
        }
    }
}

impl vstd::std_specs::convert::FromSpecImpl<std::borrow::Cow<'static, [u8]>> for Body {
    open spec fn obeys_from_spec() -> bool {
        true
    }

    open spec fn from_spec(v: std::borrow::Cow<'static, [u8]>) -> Body {
        match v {
            std::borrow::Cow::Borrowed(b) => Body { source: Source::Static(b) },
            std::borrow::Cow::Owned(o) => Body { source: Source::Full(o) },
        }
    }
}

impl From<std::borrow::Cow<'static, str>> for Body {
    fn from(v: std::borrow::Cow<'static, str>) -> Body {
        match v {
            std::borrow::Cow::Borrowed(t) => Body::new(Source::StaticText(t)),
            std::borrow::Cow::Owned(o) => Body::new(Source::Text(o)),
        }
    }
}

impl vstd::std_specs::convert::FromSpecImpl<std::borrow::Cow<'static, str>> for Body {
    open spec fn obeys_from_spec() -> bool {
        true
    }

    open spec fn from_spec(v: std::borrow::Cow<'static, str>) -> Body {
        match v {
            std::borrow::Cow::Borrowed(t) => Body { source: Source::StaticText(t) },
            std::borrow::Cow::Owned(o) => Body { source: Source::Text(o) },
        }
    }
}

} // verus!
