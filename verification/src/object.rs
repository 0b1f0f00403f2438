//! What a heap object holds.

use vstd::prelude::*;
use vstd::slice::slice_to_vec;
use vstd::string::StringSliceAdditionalSpecFns;
use vstd::utf8::encode_utf8;
use crate::typeob::{ExcType, PyType};

verus! {

/// The state of a decoding-error object: which codec failed, on which input,
/// where in it, and why.
#[derive(Debug, PartialEq, Eq)]
pub struct DecodeFailure {
    /// The name of the codec.
    pub encoding: String,
    /// The bytes that were being decoded.
    pub object: Vec<u8>,
    /// The offset of the first bad byte.
    pub start: usize,
    /// The offset just past the last bad byte.
    pub end: usize,
    /// A description of what was wrong.
    pub reason: String,
}

/// The mathematical value of a [`DecodeFailure`].
pub struct DecodeFailureView {
    pub encoding: Seq<char>,
    pub object: Seq<u8>,
    pub start: usize,
    pub end: usize,
    pub reason: Seq<char>,
}

impl View for DecodeFailure {
    type V = DecodeFailureView;

    open spec fn view(&self) -> DecodeFailureView {
        DecodeFailureView {
            encoding: self.encoding@,
            object: self.object@,
            start: self.start,
            end: self.end,
            reason: self.reason@,
        }
    }
}

impl Clone for DecodeFailure {
    fn clone(&self) -> (r: DecodeFailure)
        ensures
            r@ == self@,
    {
        DecodeFailure {
            encoding: self.encoding.clone(),
            object: slice_to_vec(self.object.as_slice()),
            start: self.start,
            end: self.end,
            reason: self.reason.clone(),
        }
    }
}

/// The host value stored in a heap object. Its variant fixes the object's
/// dynamic type.
#[derive(Debug, PartialEq, Eq)]
pub enum Value {
    /// An instance of `object` with no state of its own.
    Plain,
    /// A text object, held as the bytes of its encoding. The bytes need not
    /// be valid UTF-8.
    Text(Vec<u8>),
    /// A tuple of integers.
    Tuple(Vec<i64>),
    /// A decoding-error object.
    DecodeError(DecodeFailure),
}

/// The mathematical value of a [`Value`].
pub enum ValueView {
    Plain,
    Text(Seq<u8>),
    Tuple(Seq<i64>),
    DecodeError(DecodeFailureView),
}

impl ValueView {
    /// What a decoding-error object made from these parts holds.
    pub open spec fn decode_error(
        encoding: Seq<char>,
        object: Seq<u8>,
        start: usize,
        end: usize,
        reason: Seq<char>,
    ) -> ValueView {
        ValueView::DecodeError(DecodeFailureView { encoding, object, start, end, reason })
    }

    /// The dynamic type of an object holding this value.
    pub open spec fn py_type(self) -> PyType {
        match self {
            ValueView::Plain => PyType::Object,
            ValueView::Text(_) => PyType::Str,
            ValueView::Tuple(_) => PyType::Tuple,
            ValueView::DecodeError(_) => PyType::Exc(ExcType::UnicodeDecodeError),
        }
    }

    /// The bytes of the text that represents the value for debugging: a text
    /// between single quotes, anything else by the name of its type.
    pub open spec fn repr_bytes(self) -> Seq<u8> {
        match self {
            ValueView::Text(b) => seq![QUOTE] + b + seq![QUOTE],
            _ => encode_utf8(self.py_type().name_spec()),
        }
    }

    /// The bytes of the text that the value reads as: a text as itself, a
    /// decoding error as its reason, anything else by the name of its type.
    pub open spec fn str_bytes(self) -> Seq<u8> {
        match self {
            ValueView::Text(b) => b,
            ValueView::DecodeError(d) => encode_utf8(d.reason),
            _ => encode_utf8(self.py_type().name_spec()),
        }
    }
}

impl View for Value {
    type V = ValueView;

    open spec fn view(&self) -> ValueView {
        match self {
            Value::Plain => ValueView::Plain,
            Value::Text(b) => ValueView::Text(b@),
            Value::Tuple(items) => ValueView::Tuple(items@),
            Value::DecodeError(d) => ValueView::DecodeError(d@),
        }
    }
}

impl Clone for Value {
    fn clone(&self) -> (r: Value)
        ensures
            r@ == self@,
    {
        match self {
            Value::Plain => Value::Plain,
            Value::Text(b) => Value::Text(slice_to_vec(b.as_slice())),
            Value::Tuple(items) => Value::Tuple(slice_to_vec(items.as_slice())),
            Value::DecodeError(d) => Value::DecodeError(d.clone()),
        }
    }
}

/// The byte that opens and closes a quoted text.
pub const QUOTE: u8 = 39;

/// Appends `src` to `dst`.
fn append_bytes(dst: &mut Vec<u8>, src: &[u8])
    ensures
        final(dst)@ == old(dst)@ + src@,
{
    let mut i: usize = 0;
    while i < src.len()
        invariant
            i <= src@.len(),
            dst@ == old(dst)@ + src@.subrange(0, i as int),
        decreases src@.len() - i,
    {
        dst.push(src[i]);
        i += 1;
    }
    assert(src@.subrange(0, i as int) == src@);
}

impl Value {
    /// The dynamic type of an object holding this value.
    pub fn py_type(&self) -> (t: PyType)
        ensures
            t == self@.py_type(),
    {
        match self {
            Value::Plain => PyType::Object,
            Value::Text(_) => PyType::Str,
            Value::Tuple(_) => PyType::Tuple,
            Value::DecodeError(_) => ExcType::UnicodeDecodeError.type_object(),
        }
    }

    /// The bytes of the text that represents the value for debugging.
    pub fn repr_bytes(&self) -> (out: Vec<u8>)
        ensures
            out@ == self@.repr_bytes(),
    {
        let mut out: Vec<u8> = Vec::new();
        match self {
            Value::Text(b) => {
                out.push(QUOTE);
                append_bytes(&mut out, b.as_slice());
                out.push(QUOTE);
            },
            _ => {
                append_bytes(&mut out, self.py_type().name().as_bytes());
            },
        }
        out
    }

    /// The bytes of the text that the value reads as.
    pub fn str_bytes(&self) -> (out: Vec<u8>)
        ensures
            out@ == self@.str_bytes(),
    {
        let mut out: Vec<u8> = Vec::new();
        match self {
            Value::Text(b) => {
                append_bytes(&mut out, b.as_slice());
            },
            Value::DecodeError(d) => {
                append_bytes(&mut out, d.reason.as_str().as_bytes());
            },
            _ => {
                append_bytes(&mut out, self.py_type().name().as_bytes());
            },
        }
        out
    }
}

} // verus!
