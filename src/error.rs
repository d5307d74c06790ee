//! The error value, and the rule by which it gains a frame at each propagation point.

use vstd::prelude::*;

use crate::location::{decimal, decimal_text, frame_text, Location};

verus! {

/// What an [`Error`] holds, seen as plain values: the text of the underlying cause, the frames
/// it gathered (absent for an error that keeps no trail), and the context texts in the order
/// they were pushed.
pub struct ErrorView {
    pub source: Seq<char>,
    pub location: Option<Seq<Location>>,
    pub context: Seq<Seq<char>>,
}

/// A failure, with location information and context added on its way up.
#[derive(Debug)]
pub struct Error {
    source: String,
    location: Option<Vec<Location>>,
    context: Vec<String>,
}

impl View for Error {
    type V = ErrorView;

    closed spec fn view(&self) -> ErrorView {
        ErrorView {
            source: self.source@,
            location: match self.location {
                Some(v) => Some(v@),
                None => None,
            },
            context: self.context@.map_values(|s: String| s@),
        }
    }
}

/// A failure as it reaches a propagation point: one of this library's errors, or a foreign
/// one, known by its text.
#[derive(Debug)]
pub enum Failure {
    Wrapped(Error),
    Foreign(String),
}

/// A failure value that the chaining accepts.
pub trait ErrorTrait: Sized {
    /// What the value is to the chaining.
    spec fn as_failure(self) -> Failure;

    fn into_failure(self) -> (r: Failure)
        ensures
            r == self.as_failure(),
    ;
}

impl ErrorTrait for Error {
    open spec fn as_failure(self) -> Failure {
        Failure::Wrapped(self)
    }

    fn into_failure(self) -> (r: Failure) {
        Failure::Wrapped(self)
    }
}

impl ErrorTrait for String {
    open spec fn as_failure(self) -> Failure {
        Failure::Foreign(self)
    }

    fn into_failure(self) -> (r: Failure) {
        Failure::Foreign(self)
    }
}

impl ErrorTrait for Failure {
    open spec fn as_failure(self) -> Failure {
        self
    }

    fn into_failure(self) -> (r: Failure) {
        self
    }
}

impl Error {
    /// Creates a new [Error] with location information: the single frame
    /// `{file, line, func, module}` and no context.
    pub fn new(
        error: String,
        file: &'static str,
        line: u32,
        func: &'static str,
        module: &'static str,
    ) -> (r: Error)
        ensures
            r@ == fresh(error@, Location { file, line, func, module }),
    {
        let mut location: Vec<Location> = Vec::new();
        location.push(Location { file, line, func, module });
        let r = Error { source: error, location: Some(location), context: Vec::new() };
        assert(r@.context =~= Seq::<Seq<char>>::empty());
        assert(r@.location->Some_0 =~= seq![Location { file, line, func, module }]);
        r
    }

    /// Creates a new [Error] without location information: chaining never adds a frame to it.
    pub fn plain(error: String) -> (r: Error)
        ensures
            r@ == (ErrorView { source: error@, location: None, context: seq![] }),
    {
        let r = Error { source: error, location: None, context: Vec::new() };
        assert(r@.context =~= Seq::<Seq<char>>::empty());
        r
    }

    /// Chains an error with additional location information.
    ///
    /// A failure that is not an [Error] becomes a new [Error] with this single frame. An
    /// [Error] gains the frame at the end of its trail, unless it was created by
    /// [Error::plain], in which case it comes back as it was.
    pub fn chain<T: ErrorTrait>(
        error: T,
        file: &'static str,
        line: u32,
        func: &'static str,
        module: &'static str,
    ) -> (r: Error)
        ensures
            r@ == chained(error.as_failure(), Location { file, line, func, module }),
    {
        match error.into_failure() {
            Failure::Wrapped(e) => {
                let mut e = e;
                let ghost before = e@;
                match e.location {
                    Some(ref mut location) => {
                        location.push(Location { file, line, func, module });
                    },
                    None => {},
                }
                assert(e@ == with_frame(before, Location { file, line, func, module }));
                e
            },
            Failure::Foreign(s) => Error::new(s, file, line, func, module),
        }
    }

    /// Pushes `context` onto the context stack; it reads first in the message.
    pub fn context(self, context: &str) -> (r: Error)
        ensures
            r@ == (ErrorView { context: self@.context.push(context@), ..self@ }),
    {
        let mut e = self;
        let ghost before = e@;
        e.context.push(context.to_string());
        assert(e@.context =~= before.context.push(context@));
        e
    }

    /// Returns the location information: absent for an error created by [Error::plain].
    pub fn location(&self) -> (r: Option<&[Location]>)
        ensures
            match r {
                Some(s) => self@.location == Some(s@),
                None => self@.location is None,
            },
    {
        match &self.location {
            Some(v) => Some(v.as_slice()),
            None => None,
        }
    }

    /// The text of the underlying cause.
    pub fn cause(&self) -> (r: &String)
        ensures
            r@ == self@.source,
    {
        &self.source
    }

    /// Each frame rendered as `<file>:<line> <module>::<func>()`, in chain order; empty for an
    /// error without location information. With [Error::message] this is the error's
    /// structured record.
    pub fn rendered_locations(&self) -> (r: Vec<String>)
        ensures
            r@.len() == trail(self@).len(),
            forall|k: int| 0 <= k < r@.len() ==> #[trigger] r@[k]@ == frame_text(trail(self@)[k]),
    {
        let mut r: Vec<String> = Vec::new();
        match &self.location {
            Some(locs) => {
                let mut i: usize = 0;
                while i < locs.len()
                    invariant
                        i <= locs@.len(),
                        trail(self@) == locs@,
                        r@.len() == i,
                        forall|k: int| 0 <= k < i ==> #[trigger] r@[k]@ == frame_text(locs@[k]),
                    decreases locs@.len() - i,
                {
                    r.push(locs[i].to_string());
                    i = i + 1;
                }
            },
            None => {},
        }
        r
    }

    /// Renders the message followed, where there is a trail, by each frame on a line of its
    /// own, after `#` and its index in chain order.
    pub fn to_string(&self) -> (r: String)
        ensures
            r@ == display_text(self@),
    {
        let mut s = self.message();
        match &self.location {
            Some(locs) => {
                let mut i: usize = 0;
                while i < locs.len()
                    invariant
                        i <= locs@.len(),
                        trail(self@) == locs@,
                        self@.location is Some,
                        s@ == rendered(self@.context, self@.source) + frames_text(locs@, i as int),
                    decreases locs@.len() - i,
                {
                    let ghost old_s = s@;
                    s.append("\n#");
                    let index = decimal_text(i as u64);
                    s.append(index.as_str());
                    s.append(" ");
                    let frame = locs[i].to_string();
                    s.append(frame.as_str());
                    proof {
                        reveal_strlit("\n#");
                        reveal_strlit(" ");
                        assert(s@ =~= rendered(self@.context, self@.source) + frames_text(
                            locs@,
                            i + 1,
                        ));
                    }
                    i = i + 1;
                }
            },
            None => {
                assert(s@ =~= display_text(self@));
            },
        }
        s
    }

    /// Returns the error message: the context texts from the last pushed to the first, each
    /// followed by `": "`, then the cause's text. Frames are not part of it.
    pub fn message(&self) -> (r: String)
        ensures
            r@ == rendered(self@.context, self@.source),
    {
        let ghost ctx = self@.context;
        let mut s = String::new();
        let mut i: usize = self.context.len();
        proof {
            assert(ctx.subrange(0, i as int) =~= ctx);
        }
        while i > 0
            invariant
                i <= self.context@.len(),
                ctx == self@.context,
                s@ + rendered(ctx.subrange(0, i as int), self@.source) == rendered(ctx, self@.source),
            decreases i,
        {
            let ghost old_s = s@;
            s.append(self.context[i - 1].as_str());
            s.append(": ");
            proof {
                reveal_strlit(": ");
                let sub = ctx.subrange(0, i as int);
                assert(sub.drop_last() =~= ctx.subrange(0, i - 1));
                assert(sub.last() == self.context@[i - 1]@);
                assert(s@ =~= old_s + sub.last() + seq![':', ' ']);
                assert(old_s + rendered(sub, self@.source) =~= s@ + rendered(
                    ctx.subrange(0, i - 1),
                    self@.source,
                ));
            }
            i = i - 1;
        }
        s.append(self.source.as_str());
        proof {
            assert(ctx.subrange(0, 0) =~= Seq::<Seq<char>>::empty());
        }
        s
    }
}

/// A fresh error around `source`, with the single frame `l` and no context.
pub open spec fn fresh(source: Seq<char>, l: Location) -> ErrorView {
    ErrorView { source, location: Some(seq![l]), context: seq![] }
}

/// `e` with the frame `l` appended, where `e` keeps a trail; `e` itself where it keeps none.
pub open spec fn with_frame(e: ErrorView, l: Location) -> ErrorView {
    match e.location {
        Some(locs) => ErrorView { location: Some(locs.push(l)), ..e },
        None => e,
    }
}

/// What chaining `f` through the propagation point `l` gives.
pub open spec fn chained(f: Failure, l: Location) -> ErrorView {
    match f {
        Failure::Wrapped(e) => with_frame(e@, l),
        Failure::Foreign(s) => fresh(s@, l),
    }
}

/// The message: the context texts from the last pushed to the first, each followed by `": "`,
/// then the cause's text.
pub open spec fn rendered(context: Seq<Seq<char>>, source: Seq<char>) -> Seq<char>
    decreases context.len(),
{
    if context.len() == 0 {
        source
    } else {
        context.last() + seq![':', ' '] + rendered(context.drop_last(), source)
    }
}

} // verus!

verus! {

/// The frames of `e`, or none where it keeps no trail.
pub open spec fn trail(e: ErrorView) -> Seq<Location> {
    match e.location {
        Some(locs) => locs,
        None => seq![],
    }
}

/// The first `n` frames of `locs`, each on a new line as `#<index> <frame>`.
pub open spec fn frames_text(locs: Seq<Location>, n: int) -> Seq<char>
    decreases n,
{
    if n <= 0 {
        seq![]
    } else {
        frames_text(locs, n - 1) + seq!['\n', '#'] + decimal((n - 1) as nat) + seq![' ']
            + frame_text(locs[n - 1])
    }
}

/// How an error reads in full: its message, then its frames where it has a trail.
pub open spec fn display_text(e: ErrorView) -> Seq<char> {
    match e.location {
        Some(locs) => rendered(e.context, e.source) + frames_text(locs, locs.len() as int),
        None => rendered(e.context, e.source),
    }
}

} // verus!
