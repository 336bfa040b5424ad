//! `ErrorSmart`: an error that carries a trace of messages, pushed as it
//! travels up the stack.
use vstd::prelude::*;

verus! {

/// A heavy trace point: a message with the place it was pushed from.
#[derive(Debug, Clone, PartialEq, Eq)]
pub struct StackFrame {
    message: String,
    file: &'static str,
    line: u32,
}

/// A light trace point: a static message only.
#[derive(Debug, Clone, PartialEq, Eq)]
pub struct TrackLight {
    message: &'static str,
}

/// One entry of an error's trace.
#[derive(Debug, Clone, PartialEq, Eq)]
pub enum TracePoint {
    Heavy(StackFrame),
    Light(TrackLight),
}

/// The mathematical value of a trace point.
pub enum TraceView {
    Heavy { message: Seq<char>, file: Seq<char>, line: u32 },
    Light { message: Seq<char> },
}

impl TracePoint {
    pub closed spec fn view_point(&self) -> TraceView {
        match self {
            TracePoint::Heavy(f) => TraceView::Heavy {
                message: f.message@,
                file: f.file@,
                line: f.line,
            },
            TracePoint::Light(l) => TraceView::Light { message: l.message@ },
        }
    }
}

/// An error with a trace of messages, oldest first.
#[derive(Debug, Clone, PartialEq, Eq)]
pub struct ErrorSmart {
    stack: Vec<TracePoint>,
}

impl View for ErrorSmart {
    type V = Seq<TraceView>;

    closed spec fn view(&self) -> Seq<TraceView> {
        self.stack@.map_values(|p: TracePoint| p.view_point())
    }
}

/// The text of one trace point as the error's description shows it.
pub open spec fn trace_text(p: TraceView) -> Seq<char> {
    match p {
        TraceView::Light { message } => "Light("@ + message + ")"@,
        TraceView::Heavy { message, .. } => "Heavy("@ + message + ")"@,
    }
}

/// The texts of the first `n` trace points, concatenated.
pub open spec fn traces_text(trace: Seq<TraceView>, n: nat) -> Seq<char>
    decreases n,
{
    if n == 0 {
        Seq::empty()
    } else {
        traces_text(trace, (n - 1) as nat) + trace_text(trace[n - 1])
    }
}

/// The description of an error with the given trace.
pub open spec fn describe(trace: Seq<TraceView>) -> Seq<char> {
    "ErrorSmart(["@ + traces_text(trace, trace.len()) + "])"@
}

impl ErrorSmart {
    /// Appends a heavy trace point that records `file` and `line`.
    pub fn push_heavy_manual(&mut self, message: String, file: &'static str, line: u32)
        ensures
            final(self)@ == old(self)@.push(
                TraceView::Heavy { message: message@, file: file@, line: line },
            ),
    {
        let frame = StackFrame { message, file, line };
        self.stack.push(TracePoint::Heavy(frame));
        assert(self@ =~= old(self)@.push(TraceView::Heavy { message: message@, file: file@, line: line }));
    }

    /// A new error whose trace is one heavy point recorded at `file`, `line`.
    pub fn new_heavy_at<T>(message: String, file: &'static str, line: u32) -> (r: Result<T, Self>)
        ensures
            r matches Err(e) && e@ == seq![TraceView::Heavy { message: message@, file: file@, line: line }],
    {
        let mut obj = ErrorSmart { stack: Vec::new() };
        obj.push_heavy_manual(message, file, line);
        Err(obj)
    }

    /// A new error whose trace is one light point.
    pub fn new_light<T>(message: &'static str) -> (r: Result<T, Self>)
        ensures
            r matches Err(e) && e@ == seq![TraceView::Light { message: message@ }],
    {
        let frame = TrackLight { message };
        let mut stack: Vec<TracePoint> = Vec::new();
        stack.push(TracePoint::Light(frame));
        let e = ErrorSmart { stack };
        assert(e@ =~= seq![TraceView::Light { message: message@ }]);
        Err(e)
    }

    /// The description of the error: `ErrorSmart([` then each trace point as
    /// `Light(message)` or `Heavy(message)`, then `])`.
    pub fn display_string(&self) -> (s: String)
        ensures
            s@ == describe(self@),
    {
        let mut s = String::from_str("ErrorSmart([");
        let n = self.stack.len();
        let mut i: usize = 0;
        while i < n
            invariant
                n == self.stack.len(),
                self@.len() == n,
                i <= n,
                s@ == "ErrorSmart(["@ + traces_text(self@, i as nat),
            decreases n - i,
        {
            let ghost before = s@;
            match &self.stack[i] {
                TracePoint::Light(light) => {
                    s.append("Light(");
                    s.append(light.message);
                    s.append(")");
                },
                TracePoint::Heavy(heavy) => {
                    s.append("Heavy(");
                    s.append(heavy.message.as_str());
                    s.append(")");
                },
            }
            assert(self@[i as int] == self.stack@[i as int].view_point());
            assert(s@ =~= before + trace_text(self@[i as int]));
            i = i + 1;
        }
        s.append("])");
        s
    }
}

/// Adds trace points to the error of a `Result`, leaving an `Ok` untouched.
pub trait ResultSmart: Sized {
    /// Pushes a light trace point onto the error, if there is one.
    fn push_light(self, message: &'static str) -> Self;

    /// Pushes a heavy trace point recorded at `file` and `line` onto the
    /// error, if there is one.
    fn push_heavy_at(self, message: String, file: &'static str, line: u32) -> Self;
}

impl<T> ResultSmart for Result<T, ErrorSmart> {
    fn push_light(self, message: &'static str) -> (r: Self)
        ensures
            match self {
                Ok(v) => r == Ok::<T, ErrorSmart>(v),
                Err(e) => r matches Err(e2) && e2@ == e@.push(TraceView::Light { message: message@ }),
            },
    {
        match self {
            Ok(v) => Ok(v),
            Err(mut e) => {
                let ghost old_e = e@;
                e.stack.push(TracePoint::Light(TrackLight { message }));
                assert(e@ =~= old_e.push(TraceView::Light { message: message@ }));
                Err(e)
            },
        }
    }

    fn push_heavy_at(self, message: String, file: &'static str, line: u32) -> (r: Self)
        ensures
            match self {
                Ok(v) => r == Ok::<T, ErrorSmart>(v),
                Err(e) => r matches Err(e2) && e2@ == e@.push(
                    TraceView::Heavy { message: message@, file: file@, line: line },
                ),
            },
    {
        match self {
            Ok(v) => Ok(v),
            Err(mut e) => {
                e.push_heavy_manual(message, file, line);
                Err(e)
            },
        }
    }
}

} // verus!
