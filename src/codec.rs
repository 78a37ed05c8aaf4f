use crate::status::Code;
use ciborium::Value;
use std::marker::PhantomData;
use vstd::prelude::*;

verus! {

#[verifier::external_type_specification]
#[verifier::external_body]
pub struct ExValue(ciborium::Value);

/// What a CBOR read or write reported, one variant for each of `ciborium`'s.
#[derive(Clone, Debug)]
pub enum CborFault {
    /// Reading or writing the underlying bytes failed.
    Io(String),
    /// The bytes are not well-formed CBOR at this offset.
    Syntax(usize),
    /// Well-formed CBOR that does not make a value.
    Semantic(Option<usize>, String),
    /// Nesting deeper than the reader allows.
    RecursionLimitExceeded,
    /// A value that cannot be written as CBOR.
    Value(String),
}

/// Relies on `ciborium::into_writer` into a `Vec<u8>`: the `Serialize` impl
/// of `Value` has no error path (a tag is always an integer), writing to a
/// `Vec` cannot fail, `io::Write` for `Vec` only appends, and every item
/// writes at least its header byte.
#[verifier::external_body]
fn write_cbor(item: &Value, dst: &mut Vec<u8>) -> (r: Result<(), CborFault>)
    ensures
        r is Ok,
        old(dst)@.len() < final(dst)@.len(),
        final(dst)@.subrange(0, old(dst)@.len() as int) == old(dst)@,
{
    match ciborium::into_writer(item, &mut *dst) {
        Ok(()) => Ok(()),
        Err(ciborium::ser::Error::Io(io)) => Err(CborFault::Io(io.to_string())),
        Err(ciborium::ser::Error::Value(msg)) => Err(CborFault::Value(msg)),
    }
}

/// Whether `ciborium` reads a value from the front of these bytes.
pub uninterp spec fn cbor_reads(b: Seq<u8>) -> bool;

/// Relies on `ciborium::from_reader` reading one value from the front of a byte
/// slice: whether it succeeds depends on the bytes alone, and with no bytes
/// there is no header to read.
#[verifier::external_body]
fn read_cbor(src: &[u8]) -> (r: Result<Value, CborFault>)
    ensures
        r is Ok == cbor_reads(src@),
        src@.len() == 0 ==> r is Err,
{
    match ciborium::from_reader::<Value, &[u8]>(src) {
        Ok(v) => Ok(v),
        Err(ciborium::de::Error::Io(io)) => Err(CborFault::Io(io.to_string())),
        Err(ciborium::de::Error::Syntax(at)) => Err(CborFault::Syntax(at)),
        Err(ciborium::de::Error::Semantic(at, msg)) => Err(CborFault::Semantic(at, msg)),
        Err(ciborium::de::Error::RecursionLimitExceeded) => Err(CborFault::RecursionLimitExceeded),
    }
}

/// A codec failure, by class: the bytes could not be moved, or they do not
/// hold a valid message.
#[derive(Clone, Debug)]
pub enum CodecError {
    Io(String),
    Format(CborFault),
}

impl CodecError {
    /// The class of a failure to write: the writer's own failure is I/O,
    /// anything else is about the value.
    pub fn of_write_fault(f: CborFault) -> (r: CodecError)
        ensures
            match f {
                CborFault::Io(m) => r == CodecError::Io(m),
                _ => r == CodecError::Format(f),
            },
    {
        match f {
            CborFault::Io(m) => CodecError::Io(m),
            other => CodecError::Format(other),
        }
    }

    /// The class of a failure to read from memory: the bytes are all there, so
    /// running out of them means the message is truncated, and every failure
    /// is a format violation.
    pub fn of_read_fault(f: CborFault) -> (r: CodecError)
        ensures
            r == CodecError::Format(f),
    {
        CodecError::Format(f)
    }

    /// The status a failure is reported under: a format violation is an
    /// internal error; an I/O failure carries no finer code here.
    pub fn code(&self) -> (r: Code)
        ensures
            self is Format ==> r == Code::Internal,
            self is Io ==> r == Code::Unknown,
    {
        match self {
            CodecError::Io(_) => Code::Unknown,
            CodecError::Format(_) => Code::Internal,
        }
    }
}

/// The CBOR codec of a service: requests of type `T` go out, responses of
/// type `U` come in.
#[derive(Debug)]
pub struct CborCodec<T, U> {
    pub marker: PhantomData<(T, U)>,
}

impl<T, U> Default for CborCodec<T, U> {
    fn default() -> (r: Self)
        ensures
            r == (CborCodec::<T, U> { marker: PhantomData }),
    {
        CborCodec { marker: PhantomData }
    }
}

impl<T, U> Clone for CborCodec<T, U> {
    fn clone(&self) -> Self {
        CborCodec { marker: PhantomData }
    }
}

impl<T, U> Copy for CborCodec<T, U> {
}

impl<T, U> CborCodec<T, U> {
    pub fn encoder(&mut self) -> (r: CborEncoder<T>)
        ensures
            *final(self) == *old(self),
            r == (CborEncoder::<T> { marker: PhantomData }),
    {
        CborEncoder { marker: PhantomData }
    }

    pub fn decoder(&mut self) -> (r: CborDecoder<U>)
        ensures
            *final(self) == *old(self),
            r == (CborDecoder::<U> { marker: PhantomData }),
    {
        CborDecoder { marker: PhantomData }
    }
}

/// Writes messages of type `T` as CBOR.
#[derive(Debug)]
pub struct CborEncoder<T> {
    pub marker: PhantomData<T>,
}

impl<T> Clone for CborEncoder<T> {
    fn clone(&self) -> Self {
        CborEncoder { marker: PhantomData }
    }
}

impl<T> Copy for CborEncoder<T> {
}

impl<T> CborEncoder<T> {
    /// Appends the encoding of `item` to `dst`, which always succeeds for a
    /// CBOR value. The encoding is made apart and appended whole, so a failed
    /// write would leave `dst` as it was.
    pub fn encode(&mut self, item: &Value, dst: &mut Vec<u8>) -> (r: Result<(), CodecError>)
        ensures
            r is Ok,
            old(dst)@.len() < final(dst)@.len(),
            final(dst)@.subrange(0, old(dst)@.len() as int) == old(dst)@,
    {
        let mut bytes: Vec<u8> = Vec::new();
        match write_cbor(item, &mut bytes) {
            Ok(()) => {
                let ghost before = dst@;
                let mut i: usize = 0;
                while i < bytes.len()
                    invariant
                        i <= bytes@.len(),
                        dst@ == before + bytes@.subrange(0, i as int),
                    decreases bytes@.len() - i,
                {
                    dst.push(bytes[i]);
                    i = i + 1;
                    assert(dst@ =~= before + bytes@.subrange(0, i as int));
                }
                assert(dst@.subrange(0, before.len() as int) =~= before);
                Ok(())
            },
            Err(fault) => Err(CodecError::of_write_fault(fault)),
        }
    }
}

/// Reads messages of type `T` from CBOR.
#[derive(Debug)]
pub struct CborDecoder<T> {
    pub marker: PhantomData<T>,
}

impl<T> Clone for CborDecoder<T> {
    fn clone(&self) -> Self {
        CborDecoder { marker: PhantomData }
    }
}

impl<T> Copy for CborDecoder<T> {
}

impl<T> CborDecoder<T> {
    /// Reads one message from the front of `src`: a value comes back exactly
    /// when the bytes hold one, and no value ever stands in for a failure. The
    /// bytes are all in memory, so every failure is a format violation.
    pub fn decode(&mut self, src: &[u8]) -> (r: Result<Value, CodecError>)
        ensures
            r is Ok == cbor_reads(src@),
            r matches Err(e) ==> e is Format,
            src@.len() == 0 ==> r is Err,
    {
        match read_cbor(src) {
            Ok(v) => Ok(v),
            Err(fault) => Err(CodecError::of_read_fault(fault)),
        }
    }
}

} // verus!
