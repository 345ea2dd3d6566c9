use vstd::prelude::*;

use vstd::std_specs::convert::IntoSpec;

use crate::context::{value_text, KvPair, KvView, ThrowContextValues};
use crate::decimal::{nat_text, push_unsigned};
use crate::point::{ErrorPoint, PointView};

verus! {

/// An origin error of type `E`, with the points at which it was raised and propagated and
/// the context attached on the way.
#[derive(Debug)]
pub struct Error<E> {
    points: Vec<ErrorPoint>,
    context: Vec<KvPair>,
    error: E,
}

/// The line that shows one context entry.
pub open spec fn context_line(kv: KvView) -> Seq<char> {
    "\n\t"@ + kv.key + ": "@ + value_text(kv.value)
}

/// The line that shows one point.
pub open spec fn point_line(p: PointView) -> Seq<char> {
    "\n\tat "@ + nat_text(p.line as nat) + ":"@ + nat_text(p.column as nat) + " in "@ + p.module
        + " ("@ + p.file + ")"@
}

/// The lines of the context entries `c`, the latest first.
pub open spec fn context_lines(c: Seq<KvPair>) -> Seq<char>
    decreases c.len(),
{
    if c.len() == 0 {
        Seq::empty()
    } else {
        context_line(c.last()@) + context_lines(c.drop_last())
    }
}

/// The lines of the points `p`, the latest first.
pub open spec fn point_lines(p: Seq<ErrorPoint>) -> Seq<char>
    decreases p.len(),
{
    if p.len() == 0 {
        Seq::empty()
    } else {
        point_line(p.last()@) + point_lines(p.drop_last())
    }
}

/// The text form of an error whose origin shows as `origin`, with context `c` and points `p`.
pub open spec fn rendered(origin: Seq<char>, c: Seq<KvPair>, p: Seq<ErrorPoint>) -> Seq<char> {
    "Error: "@ + origin + context_lines(c) + point_lines(p)
}

impl ErrorPoint {
    /// Appends the line that shows this point to `s`.
    pub fn write_line(&self, s: &mut String)
        ensures
            final(s)@ == old(s)@ + point_line(self@),
    {
        s.append("\n\tat ");
        push_unsigned(s, self.line() as u64);
        s.append(":");
        push_unsigned(s, self.column() as u64);
        s.append(" in ");
        s.append(self.module());
        s.append(" (");
        s.append(self.file());
        s.append(")");
        assert(s@ =~= old(s)@ + point_line(self@));
    }
}

impl KvPair {
    /// Appends the line that shows this entry to `s`.
    pub fn write_line(&self, s: &mut String)
        ensures
            final(s)@ == old(s)@ + context_line(self@),
    {
        s.append("\n\t");
        s.append(self.key());
        s.append(": ");
        self.value().write_to(s);
        assert(s@ =~= old(s)@ + context_line(self@));
    }
}

/// The structured form of an error, for serialization: its points and its context entries
/// in the order they were recorded, and the text form of its origin.
#[derive(Debug)]
pub struct StructuredError {
    pub points: Vec<ErrorPoint>,
    pub context: Vec<KvPair>,
    pub error: String,
}

/// The values of the context entries `c`, in order.
pub open spec fn kv_views(c: Seq<KvPair>) -> Seq<KvView> {
    c.map_values(|k: KvPair| k@)
}

impl<E> Error<E> {
    /// The origin error.
    pub closed spec fn spec_origin(&self) -> E {
        self.error
    }

    /// The points, oldest first.
    pub closed spec fn spec_points(&self) -> Seq<ErrorPoint> {
        self.points@
    }

    /// The context entries, oldest first.
    pub closed spec fn spec_context(&self) -> Seq<KvPair> {
        self.context@
    }

    /// An error around `error`, with no points and no context.
    pub fn new(error: E) -> (r: Error<E>)
        ensures
            r.spec_origin() == error,
            r.spec_points() == Seq::<ErrorPoint>::empty(),
            r.spec_context() == Seq::<KvPair>::empty(),
    {
        Error { points: Vec::new(), context: Vec::new(), error: error }
    }

    /// The context entries, oldest first.
    pub fn get_context(&self) -> (r: &[KvPair])
        ensures
            r@ == self.spec_context(),
    {
        self.context.as_slice()
    }

    /// Attaches `value`, converted to a context value, under `key`, after the entries
    /// already there.
    pub fn add_context<V: Into<ThrowContextValues>>(&mut self, key: &'static str, value: V)
        ensures
            final(self).spec_origin() == old(self).spec_origin(),
            final(self).spec_points() == old(self).spec_points(),
            final(self).spec_context().len() == old(self).spec_context().len() + 1,
            final(self).spec_context().drop_last() == old(self).spec_context(),
            final(self).spec_context().last()@.key == key@,
            <V as IntoSpec<ThrowContextValues>>::obeys_into_spec() ==> final(self).spec_context().last()@.value
                == value.into_spec(),
    {
        self.context.push(KvPair::new(key, value.into()));
        assert(self.context@.drop_last() =~= old(self).context@);
    }

    /// Records `point` as the latest place the error passed through.
    pub fn __push_point(&mut self, point: ErrorPoint)
        ensures
            final(self).spec_origin() == old(self).spec_origin(),
            final(self).spec_points() == old(self).spec_points().push(point),
            final(self).spec_context() == old(self).spec_context(),
    {
        self.points.push(point);
    }

    /// The same error, with `point` recorded as the latest place it passed through.
    pub fn propagate(self, point: ErrorPoint) -> (r: Error<E>)
        ensures
            r.spec_origin() == self.spec_origin(),
            r.spec_points() == self.spec_points().push(point),
            r.spec_context() == self.spec_context(),
    {
        let mut e = self;
        e.__push_point(point);
        e
    }

    /// The same error, with `point` recorded as the latest place it passed through and
    /// `entries` attached, in their order, after the context already there.
    pub fn propagate_with_context(self, point: ErrorPoint, entries: Vec<KvPair>) -> (r: Error<E>)
        ensures
            r.spec_origin() == self.spec_origin(),
            r.spec_points() == self.spec_points().push(point),
            r.spec_context() == self.spec_context() + entries@,
    {
        let mut e = self;
        e.__push_point(point);
        let mut entries = entries;
        e.context.append(&mut entries);
        e
    }

    /// The points at which the error was raised and propagated, oldest first.
    #[inline]
    pub fn points(&self) -> (r: &[ErrorPoint])
        ensures
            r@ == self.spec_points(),
    {
        self.points.as_slice()
    }

    /// The origin error; the same as [`Error::error`].
    #[inline]
    pub fn original_error(&self) -> (r: &E)
        ensures
            *r == self.spec_origin(),
    {
        self.error()
    }

    /// The origin error.
    #[inline]
    pub fn error(&self) -> (r: &E)
        ensures
            *r == self.spec_origin(),
    {
        &self.error
    }

    /// Moves the origin error out.
    #[inline]
    pub fn into_origin(self) -> (r: E)
        ensures
            r == self.spec_origin(),
    {
        self.error
    }

    /// Moves the origin error out, converted into `N`.
    #[inline]
    pub fn into_error<N>(self) -> (r: N) where E: Into<N>
        ensures
            <E as IntoSpec<N>>::obeys_into_spec() ==> r == self.spec_origin().into_spec(),
    {
        self.error.into()
    }

    /// The same error with its origin converted into `NE`; points and context are kept.
    pub fn transform<NE>(self) -> (r: Error<NE>) where E: Into<NE>
        ensures
            r.spec_points() == self.spec_points(),
            r.spec_context() == self.spec_context(),
            <E as IntoSpec<NE>>::obeys_into_spec() ==> r.spec_origin() == self.spec_origin().into_spec(),
    {
        Error { points: self.points, context: self.context, error: self.error.into() }
    }
    /// The text form of this error, where `origin` is the text form of the origin error:
    /// `Error: ` and `origin`, then one line per context entry and one per point, each
    /// latest first.
    pub fn render(&self, origin: &str) -> (r: String)
        ensures
            r@ == rendered(origin@, self.spec_context(), self.spec_points()),
    {
        let mut s = String::new();
        s.append("Error: ");
        s.append(origin);
        let ghost head = s@;
        assert(self.context@.take(self.context@.len() as int) =~= self.context@);
        let mut i: usize = self.context.len();
        while i > 0
            invariant
                i <= self.context@.len(),
                s@ + context_lines(self.context@.take(i as int)) == head + context_lines(
                    self.context@,
                ),
            decreases i,
        {
            i = i - 1;
            let ghost before = s@;
            self.context[i].write_line(&mut s);
            proof {
                let t = self.context@.take(i as int + 1);
                assert(t.drop_last() =~= self.context@.take(i as int));
                assert(t.last() == self.context@[i as int]);
                assert(context_lines(t) == context_line(self.context@[i as int]@) + context_lines(
                    self.context@.take(i as int),
                ));
                assert(s@ + context_lines(self.context@.take(i as int)) =~= before + context_lines(
                    t,
                ));
            }
        }
        assert(self.context@.take(0) =~= Seq::<KvPair>::empty());
        let ghost mid = s@;
        assert(mid == head + context_lines(self.context@));
        assert(self.points@.take(self.points@.len() as int) =~= self.points@);
        let mut j: usize = self.points.len();
        while j > 0
            invariant
                j <= self.points@.len(),
                s@ + point_lines(self.points@.take(j as int)) == mid + point_lines(self.points@),
            decreases j,
        {
            j = j - 1;
            let ghost before = s@;
            self.points[j].write_line(&mut s);
            proof {
                let t = self.points@.take(j as int + 1);
                assert(t.drop_last() =~= self.points@.take(j as int));
                assert(t.last() == self.points@[j as int]);
                assert(point_lines(t) == point_line(self.points@[j as int]@) + point_lines(
                    self.points@.take(j as int),
                ));
                assert(s@ + point_lines(self.points@.take(j as int)) =~= before + point_lines(t));
            }
        }
        assert(self.points@.take(0) =~= Seq::<ErrorPoint>::empty());
        assert(s@ =~= rendered(origin@, self.spec_context(), self.spec_points()));
        s
    }
    /// The structured form of this error, where `origin` is the text form of the origin
    /// error. Points and context entries keep the order they were recorded in.
    pub fn to_structured(&self, origin: &str) -> (r: StructuredError)
        ensures
            r.points@ == self.spec_points(),
            kv_views(r.context@) == kv_views(self.spec_context()),
            r.error@ == origin@,
    {
        let mut points: Vec<ErrorPoint> = Vec::new();
        let mut i: usize = 0;
        while i < self.points.len()
            invariant
                i <= self.points@.len(),
                points@ == self.points@.take(i as int),
            decreases self.points@.len() - i,
        {
            points.push(self.points[i]);
            i = i + 1;
            assert(points@ =~= self.points@.take(i as int));
        }
        assert(self.points@.take(self.points@.len() as int) =~= self.points@);
        let mut context: Vec<KvPair> = Vec::new();
        let mut j: usize = 0;
        while j < self.context.len()
            invariant
                j <= self.context@.len(),
                context@.len() == j,
                forall|k: int| 0 <= k < j ==> #[trigger] context@[k]@ == self.context@[k]@,
            decreases self.context@.len() - j,
        {
            let kv = self.context[j].duplicate();
            context.push(kv);
            j = j + 1;
        }
        assert(kv_views(context@) =~= kv_views(self.context@));
        StructuredError { points, context, error: String::from_str(origin) }
    }
}

} // verus!
