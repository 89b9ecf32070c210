use vstd::prelude::*;

verus! {

/// A field that one of the decoded objects recognises.
#[derive(Clone, Copy, Debug, PartialEq, Eq, Structural)]
pub enum Field {
    Name,
    Pricing,
    At,
    Price,
}

/// The key under which a field is written.
pub open spec fn field_text(f: Field) -> Seq<char> {
    match f {
        Field::Name => "name"@,
        Field::Pricing => "pricing"@,
        Field::At => "at"@,
        Field::Price => "price"@,
    }
}

impl Field {
    /// The key under which this field is written.
    pub fn name(&self) -> (r: &'static str)
        ensures
            r@ == field_text(*self),
    {
        match self {
            Field::Name => "name",
            Field::Pricing => "pricing",
            Field::At => "at",
            Field::Price => "price",
        }
    }
}

/// The shape that a value was expected to have.
#[derive(Clone, Copy, Debug, PartialEq, Eq, Structural)]
pub enum Expected {
    Text,
    Unsigned,
    Sequence,
    Object,
}

/// A human-readable description of an expected shape.
pub open spec fn expected_text(e: Expected) -> Seq<char> {
    match e {
        Expected::Text => "a string"@,
        Expected::Unsigned => "an unsigned integer"@,
        Expected::Sequence => "a sequence"@,
        Expected::Object => "a map"@,
    }
}

impl Expected {
    /// A human-readable description of the expected shape.
    pub fn describe(&self) -> (r: &'static str)
        ensures
            r@ == expected_text(*self),
    {
        match self {
            Expected::Text => "a string",
            Expected::Unsigned => "an unsigned integer",
            Expected::Sequence => "a sequence",
            Expected::Object => "a map",
        }
    }
}

/// One step from a document's root towards a nested value.
#[derive(Clone, Copy, Debug, PartialEq, Eq, Structural)]
pub enum PathSegment {
    /// The value of a recognised field.
    Field(Field),
    /// An element of a sequence, by position.
    Index(usize),
}

/// Why a document could not be decoded.
#[derive(Clone, Debug, PartialEq, Eq)]
pub enum DecodeError {
    /// A key that the object does not recognise; `accepted` lists those it does.
    UnknownField { key: String, accepted: Vec<Field> },
    /// A recognised key that appears a second time in the same object.
    DuplicateField { field: Field },
    /// A recognised key that the object never gave.
    MissingField { field: Field },
    /// A value of the wrong shape, at `path` from the decoded document.
    ShapeMismatch { path: Vec<PathSegment>, expected: Expected },
}

/// The mathematical content of a [`DecodeError`].
pub enum DecodeErrorView {
    UnknownField { key: Seq<char>, accepted: Seq<Field> },
    DuplicateField { field: Field },
    MissingField { field: Field },
    ShapeMismatch { path: Seq<PathSegment>, expected: Expected },
}

impl View for DecodeError {
    type V = DecodeErrorView;

    open spec fn view(&self) -> DecodeErrorView {
        match self {
            DecodeError::UnknownField { key, accepted } => DecodeErrorView::UnknownField {
                key: key@,
                accepted: accepted@,
            },
            DecodeError::DuplicateField { field } => DecodeErrorView::DuplicateField {
                field: *field,
            },
            DecodeError::MissingField { field } => DecodeErrorView::MissingField { field: *field },
            DecodeError::ShapeMismatch { path, expected } => DecodeErrorView::ShapeMismatch {
                path: path@,
                expected: *expected,
            },
        }
    }
}

/// The same error, located one step further from the root: a shape mismatch
/// gains `seg` at the front of its path; other errors carry no path.
pub open spec fn nested_under(e: DecodeErrorView, seg: PathSegment) -> DecodeErrorView {
    match e {
        DecodeErrorView::ShapeMismatch { path, expected } => DecodeErrorView::ShapeMismatch {
            path: seq![seg] + path,
            expected,
        },
        _ => e,
    }
}

impl DecodeError {
    /// Locates the error one step further from the root.
    pub fn nested_under(self, seg: PathSegment) -> (r: DecodeError)
        ensures
            r@ == nested_under(self@, seg),
    {
        match self {
            DecodeError::ShapeMismatch { path, expected } => {
                let mut full: Vec<PathSegment> = Vec::new();
                full.push(seg);
                let mut rest = path;
                full.append(&mut rest);
                DecodeError::ShapeMismatch { path: full, expected }
            },
            other => other,
        }
    }

    /// A shape mismatch at the value itself.
    pub fn shape_here(expected: Expected) -> (r: DecodeError)
        ensures
            r@ == (DecodeErrorView::ShapeMismatch { path: seq![], expected }),
    {
        DecodeError::ShapeMismatch { path: Vec::new(), expected }
    }

    /// A shape mismatch at the value of a field.
    pub fn shape_at(field: Field, expected: Expected) -> (r: DecodeError)
        ensures
            r@ == (DecodeErrorView::ShapeMismatch {
                path: seq![PathSegment::Field(field)],
                expected,
            }),
    {
        let mut path: Vec<PathSegment> = Vec::new();
        path.push(PathSegment::Field(field));
        proof {
            assert(path@ =~= seq![PathSegment::Field(field)]);
        }
        DecodeError::ShapeMismatch { path, expected }
    }
}

} // verus!

verus! {

/// A decode result, with its error (and, through `View`, its value) seen mathematically.
pub open spec fn viewed<T: View>(r: Result<T, DecodeError>) -> Result<T::V, DecodeErrorView> {
    match r {
        Ok(v) => Ok(v@),
        Err(e) => Err(e@),
    }
}

} // verus!
