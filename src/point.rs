use vstd::prelude::*;

verus! {

/// The mathematical value of an [`ErrorPoint`].
pub ghost struct PointView {
    pub line: u32,
    pub column: u32,
    pub module: Seq<char>,
    pub file: Seq<char>,
}

/// A place at which an error was raised or propagated: a source line and column, the
/// enclosing module path and the source file.
#[derive(Debug, Clone, Copy)]
pub struct ErrorPoint {
    line: u32,
    column: u32,
    module: &'static str,
    file: &'static str,
}

impl View for ErrorPoint {
    type V = PointView;

    closed spec fn view(&self) -> PointView {
        PointView { line: self.line, column: self.column, module: self.module@, file: self.file@ }
    }
}

impl ErrorPoint {
    /// The line the error was raised at.
    #[inline]
    pub fn line(&self) -> (r: u32)
        ensures
            r == self@.line,
    {
        self.line
    }

    /// The column the error was raised at.
    #[inline]
    pub fn column(&self) -> (r: u32)
        ensures
            r == self@.column,
    {
        self.column
    }

    /// The module path of the place the error was raised at.
    #[inline]
    pub fn module(&self) -> (r: &'static str)
        ensures
            r@ == self@.module,
    {
        self.module
    }

    /// The source file of the place the error was raised at.
    #[inline]
    pub fn file(&self) -> (r: &'static str)
        ensures
            r@ == self@.file,
    {
        self.file
    }

    /// Builds a point from the four call-site values, stored unchanged.
    pub fn __construct(line: u32, column: u32, module: &'static str, file: &'static str) -> (r:
        ErrorPoint)
        ensures
            r@ == (PointView { line, column, module: module@, file: file@ }),
    {
        ErrorPoint { line: line, column: column, module: module, file: file }
    }
}

} // verus!
