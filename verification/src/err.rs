//! The traced-error container: an error value plus the ordered list of
//! source locations it has propagated through, and the dispatch that turns
//! any qualifying error value into a traced error exactly once.

use vstd::prelude::*;

verus! {

/// The capability an error value must offer before it can enter a traced
/// error: it can render itself as text. The rendered text is the only thing
/// a traced error keeps of its original error.
pub trait IF {
    /// The text this error renders as.
    spec fn spec_message(&self) -> Seq<char>;

    /// Render this error as text.
    fn message(&self) -> (s: String)
        ensures
            s@ == self.spec_message(),
    ;
}

/// A source position recorded at a propagation boundary.
pub struct Location {
    pub file: String,
    pub line: u64,
    pub col: u64,
}

/// The type-erased slot a traced error keeps its original error in: the
/// original's rendered text, captured once when the error was first wrapped
/// and never changed afterwards.
pub struct Erased {
    msg: String,
}

impl IF for Erased {
    closed spec fn spec_message(&self) -> Seq<char> {
        self.msg@
    }

    fn message(&self) -> (s: String) {
        self.msg.clone()
    }
}

/// The mathematical model of a traced error: the trail of recorded
/// locations, in append order, and the original error's rendered text.
pub struct TracedModel {
    pub locs: Seq<Location>,
    pub msg: Seq<char>,
}

/// An error plus the path it has traveled: an ordered list of source
/// locations (earliest boundary first) and the single, heap-resident
/// original error, stored once and never replaced.
pub struct Traced {
    loc: Vec<Location>,
    org: Box<Erased>,
}

impl Traced {
    /// The model of this traced error.
    pub closed spec fn model(self) -> TracedModel {
        TracedModel { locs: self.loc@, msg: self.org.msg@ }
    }

    /// The recorded locations, earliest boundary first.
    pub open spec fn locs(self) -> Seq<Location> {
        self.model().locs
    }

    /// The original error's rendered text.
    pub open spec fn original(self) -> Seq<char> {
        self.model().msg
    }

    /// A traced error always holds at least one location: the one recorded
    /// when the original error was first wrapped.
    pub open spec fn wf(self) -> bool {
        self.locs().len() >= 1
    }

    /// Wrap a fresh, never-before-traced error: record `at` as the sole
    /// location and move the rendered text of `e` into a fresh slot.
    pub fn wrap_fresh<E: IF>(e: E, at: Location) -> (t: Traced)
        ensures
            t.model() == fresh_model(e.spec_message(), at),
            t.wf(),
    {
        let msg = e.message();
        let t = Traced { loc: vec![at], org: Box::new(Erased { msg }) };
        proof {
            assert(t.locs() =~= seq![at]);
        }
        t
    }

    /// Append one more boundary to an already-traced error: record `at` at
    /// the end of the trail and keep the original exactly as it is.
    pub fn append_location(self, at: Location) -> (t: Traced)
        ensures
            t.model() == append_model(self.model(), at),
            t.wf(),
    {
        let Traced { mut loc, org } = self;
        loc.push(at);
        Traced { loc, org }
    }

    /// The underlying original error, as a read-only reference.
    pub fn source(&self) -> (s: &Erased)
        ensures
            s.spec_message() == self.original(),
    {
        &self.org
    }

    /// The recorded locations, as a read-only reference.
    pub fn locations(&self) -> (l: &Vec<Location>)
        ensures
            l@ == self.locs(),
    {
        &self.loc
    }

    /// The full rendering of a traced error: the original error's text, a
    /// line break, then one `file:line:column` line per recorded location,
    /// most recently appended first.
    pub open spec fn render_spec(self) -> Seq<char> {
        render_of(self.model())
    }

    /// Render this traced error. This one rendering serves for display and
    /// for debugging alike: a human-readable trace, not a structural dump.
    pub fn render(&self) -> (s: String)
        ensures
            s@ == self.render_spec(),
    {
        proof {
            reveal_strlit("\n");
        }
        let mut s = self.org.message();
        s.append("\n");
        let mut i = self.loc.len();
        proof {
            assert("\n"@ =~= seq!['\n']);
            assert(self.loc@.subrange(i as int, self.loc@.len() as int) =~= Seq::empty());
        }
        while i > 0
            invariant
                i <= self.loc@.len(),
                s@ == self.original() + seq!['\n'] + trail(
                    self.loc@.subrange(i as int, self.loc@.len() as int),
                ),
            decreases i,
        {
            i = i - 1;
            push_loc_line(&mut s, &self.loc[i]);
            proof {
                let rest = self.loc@.subrange(i + 1, self.loc@.len() as int);
                assert(self.loc@.subrange(i as int, self.loc@.len() as int) =~= seq![self.loc@[i as int]]
                    + rest);
                lemma_trail_prepend(self.loc@[i as int], rest);
                assert((self.original() + seq!['\n'] + trail(rest)) + loc_line(self.loc@[i as int])
                    =~= self.original() + seq!['\n'] + (trail(rest) + loc_line(self.loc@[i as int])));
            }
        }
        proof {
            assert(self.loc@.subrange(0, self.loc@.len() as int) =~= self.loc@);
        }
        s
    }
}

/// The decimal digit character for `d`.
pub open spec fn spec_digit(d: nat) -> char
    recommends
        d < 10,
{
    if d == 0 {
        '0'
    } else if d == 1 {
        '1'
    } else if d == 2 {
        '2'
    } else if d == 3 {
        '3'
    } else if d == 4 {
        '4'
    } else if d == 5 {
        '5'
    } else if d == 6 {
        '6'
    } else if d == 7 {
        '7'
    } else if d == 8 {
        '8'
    } else {
        '9'
    }
}

/// The decimal rendering of `n`, most significant digit first.
pub open spec fn dec_of(n: nat) -> Seq<char>
    decreases n,
{
    if n < 10 {
        seq![spec_digit(n)]
    } else {
        dec_of(n / 10).push(spec_digit(n % 10))
    }
}

/// The rendered line for one recorded location: `file:line:column` and a
/// line break.
pub open spec fn loc_line(l: Location) -> Seq<char> {
    l.file@ + seq![':'] + dec_of(l.line as nat) + seq![':'] + dec_of(l.col as nat) + seq!['\n']
}

/// The rendered trail for a sequence of recorded locations: one line per
/// location, most recently appended first — the shallowest boundary leads.
pub open spec fn trail(locs: Seq<Location>) -> Seq<char>
    decreases locs.len(),
{
    if locs.len() == 0 {
        Seq::empty()
    } else {
        loc_line(locs.last()) + trail(locs.drop_last())
    }
}

/// The rendering a traced error with model `m` produces: the original's
/// text, a line break, then the trail of its locations.
pub open spec fn render_of(m: TracedModel) -> Seq<char> {
    m.msg + seq!['\n'] + trail(m.locs)
}

/// After one more boundary, the newest boundary's line renders first,
/// directly after the original's text, and the earlier trail follows
/// unchanged: the trail reads in reverse-of-append order.
pub proof fn lemma_newest_renders_first(m: TracedModel, at: Location)
    ensures
        render_of(append_model(m, at)) == m.msg + seq!['\n'] + (loc_line(at) + trail(m.locs)),
{
    assert(m.locs.push(at).last() == at);
    assert(m.locs.push(at).drop_last() =~= m.locs);
    assert(m.msg + seq!['\n'] + (loc_line(at) + trail(m.locs)) =~= (m.msg + seq!['\n']) + (loc_line(
        at,
    ) + trail(m.locs)));
    assert(render_of(append_model(m, at)) =~= (m.msg + seq!['\n']) + (loc_line(at) + trail(
        m.locs,
    )));
}

/// Rendering a trail whose earliest location is `x` puts the line for `x`
/// last.
proof fn lemma_trail_prepend(x: Location, s: Seq<Location>)
    ensures
        trail(seq![x] + s) == trail(s) + loc_line(x),
    decreases s.len(),
{
    if s.len() == 0 {
        assert(seq![x] + s =~= seq![x]);
        assert(seq![x].last() == x);
        assert(seq![x].drop_last() =~= Seq::<Location>::empty());
        assert(trail(seq![x]) =~= loc_line(x) + trail(Seq::<Location>::empty()));
        assert(loc_line(x) + Seq::<char>::empty() =~= loc_line(x));
        assert(trail(s) + loc_line(x) =~= loc_line(x));
    } else {
        let w = seq![x] + s;
        assert(w.last() == s.last());
        assert(w.drop_last() =~= seq![x] + s.drop_last());
        lemma_trail_prepend(x, s.drop_last());
        assert(loc_line(s.last()) + (trail(s.drop_last()) + loc_line(x)) =~= (loc_line(s.last())
            + trail(s.drop_last())) + loc_line(x));
    }
}

/// The one-character text for the decimal digit `d`.
fn digit_str(d: u64) -> (r: &'static str)
    requires
        d < 10,
    ensures
        r@ == seq![spec_digit(d as nat)],
{
    proof {
        reveal_strlit("0");
        reveal_strlit("1");
        reveal_strlit("2");
        reveal_strlit("3");
        reveal_strlit("4");
        reveal_strlit("5");
        reveal_strlit("6");
        reveal_strlit("7");
        reveal_strlit("8");
        reveal_strlit("9");
    }
    if d == 0 {
        "0"
    } else if d == 1 {
        "1"
    } else if d == 2 {
        "2"
    } else if d == 3 {
        "3"
    } else if d == 4 {
        "4"
    } else if d == 5 {
        "5"
    } else if d == 6 {
        "6"
    } else if d == 7 {
        "7"
    } else if d == 8 {
        "8"
    } else {
        "9"
    }
}

/// Append the decimal rendering of `n` to `s`.
fn push_dec(s: &mut String, n: u64)
    ensures
        final(s)@ == old(s)@ + dec_of(n as nat),
    decreases n,
{
    if n < 10 {
        s.append(digit_str(n));
    } else {
        push_dec(s, n / 10);
        s.append(digit_str(n % 10));
        proof {
            assert((old(s)@ + dec_of((n / 10) as nat)) + seq![spec_digit((n % 10) as nat)]
                =~= old(s)@ + dec_of(n as nat));
        }
    }
}

/// Append the rendered line for `l` to `s`.
fn push_loc_line(s: &mut String, l: &Location)
    ensures
        final(s)@ == old(s)@ + loc_line(*l),
{
    proof {
        reveal_strlit(":");
        reveal_strlit("\n");
    }
    s.append(l.file.as_str());
    s.append(":");
    push_dec(s, l.line);
    s.append(":");
    push_dec(s, l.col);
    s.append("\n");
    proof {
        assert(":"@ =~= seq![':']);
        assert("\n"@ =~= seq!['\n']);
        assert(old(s)@ + l.file@ + seq![':'] + dec_of(l.line as nat) + seq![':'] + dec_of(
            l.col as nat,
        ) + seq!['\n'] =~= old(s)@ + loc_line(*l));
    }
}

/// The model of a traced error freshly wrapped at `at`.
pub open spec fn fresh_model(msg: Seq<char>, at: Location) -> TracedModel {
    TracedModel { locs: seq![at], msg }
}

/// The model of a traced error after one more boundary at `at`: the trail
/// grows at the end; the original text is untouched.
pub open spec fn append_model(m: TracedModel, at: Location) -> TracedModel {
    TracedModel { locs: m.locs.push(at), msg: m.msg }
}

/// The two-case union over "this error is already traced" and "this error
/// is fresh". The two cases are mutually exclusive and together cover every
/// qualifying error value, so the conversion dispatch below is total and
/// non-overlapping.
pub enum Convertible<E> {
    /// An error that is already traced: passing another boundary must only
    /// append a location, never wrap again.
    Already(Traced),
    /// Any other qualifying error: passing a boundary wraps it fresh.
    Fresh(E),
}

/// The model of what the conversion dispatch produces for each case.
pub open spec fn dispatch_model<E: IF>(c: Convertible<E>, at: Location) -> TracedModel {
    match c {
        Convertible::Already(t) => append_model(t.model(), at),
        Convertible::Fresh(e) => fresh_model(e.spec_message(), at),
    }
}

/// The single conversion entry point: turn any qualifying error value into
/// a traced error. An already-traced error only gains a location; every
/// other error is wrapped exactly once. Wrapping depth never exceeds one.
pub fn convert<E: IF>(c: Convertible<E>, at: Location) -> (t: Traced)
    ensures
        t.model() == dispatch_model(c, at),
        t.wf(),
{
    match c {
        Convertible::Already(tr) => tr.append_location(at),
        Convertible::Fresh(e) => Traced::wrap_fresh(e, at),
    }
}

/// An ad hoc error that renders as a fixed text message.
struct Anyway {
    msg: String,
}

impl IF for Anyway {
    closed spec fn spec_message(&self) -> Seq<char> {
        self.msg@
    }

    fn message(&self) -> (s: String) {
        self.msg.clone()
    }
}

/// Build a traced error whose original renders exactly `msg`, recorded at
/// `at`: the ad hoc message-error constructor.
pub fn anyway(msg: String, at: Location) -> (t: Traced)
    ensures
        t.model() == fresh_model(msg@, at),
        t.wf(),
{
    Traced::wrap_fresh(Anyway { msg }, at)
}

} // verus!
