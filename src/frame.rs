use vstd::prelude::*;
use crate::catalog::{GetStringCmd, GetVoltageCmd, ReadU32Cmd, SendArrayCmd, SendReadArrayCmd, WriteU8Cmd};
use crate::wire::{be16, be32, u16_from_be, u32_from_be};

verus! {

#[verifier::external_type_specification]
#[verifier::external_body]
pub struct ExIoError(std::io::Error);

/// The longest exchange the board accepts, in bytes.
pub const LONGEST_SPI_TRANSFER: usize = 29;

/// The board's default address on the bus.
pub const BRICKPI3_ADDRESS: u8 = 1;

/// The byte that the board places at offset 3 of a valid response.
pub const ACK: u8 = 0xA5;

/// Failure of one exchange with the board.
#[derive(Debug)]
pub enum SPIError {
    /// The acknowledgement marker was missing from the response.
    BadResponse,
    /// The request would be longer than the board accepts.
    TooLongSPITransfer,
    /// The transport failed.
    IOError(std::io::Error),
}

impl From<std::io::Error> for SPIError {
    fn from(e: std::io::Error) -> SPIError {
        SPIError::IOError(e)
    }
}

impl vstd::std_specs::convert::FromSpecImpl<std::io::Error> for SPIError {
    open spec fn obeys_from_spec() -> bool {
        true
    }

    open spec fn from_spec(e: std::io::Error) -> SPIError {
        SPIError::IOError(e)
    }
}

/// `n` zero bytes.
pub open spec fn zeros(n: nat) -> Seq<u8> {
    Seq::new(n, |i: int| 0u8)
}

/// A request: device address, command identifier, then the payload.
pub open spec fn frame(address: u8, cmd: u8, payload: Seq<u8>) -> Seq<u8> {
    seq![address, cmd] + payload
}

/// Every request is its two header bytes, the address and the command,
/// followed by its payload, so its length is two more than the payload's.
pub proof fn lemma_frame_layout(address: u8, cmd: u8, payload: Seq<u8>)
    ensures
        frame(address, cmd, payload).len() == 2 + payload.len(),
        frame(address, cmd, payload)[0] == address,
        frame(address, cmd, payload)[1] == cmd,
        forall|i: int| 0 <= i < payload.len() ==> #[trigger] frame(address, cmd, payload)[2 + i] == payload[i],
{
}

/// Whether an exchange of `len` bytes fits in one transfer.
pub open spec fn fits(len: nat) -> bool {
    len <= LONGEST_SPI_TRANSFER
}

/// Whether a response carries the acknowledgement marker.
pub open spec fn acked(rx: Seq<u8>) -> bool {
    rx.len() > 3 && rx[3] == ACK
}

/// Whether `r` is the rejection of a request that is too long.
pub open spec fn too_long<T>(r: Result<T, SPIError>) -> bool {
    r matches Err(SPIError::TooLongSPITransfer)
}

/// Whether `r` is the rejection of a response without acknowledgement.
pub open spec fn bad_response<T>(r: Result<T, SPIError>) -> bool {
    r matches Err(SPIError::BadResponse)
}

/// `n` zero bytes, as a vector.
pub fn zero_bytes(n: usize) -> (r: Vec<u8>)
    ensures
        r@ == zeros(n as nat),
{
    let mut r: Vec<u8> = Vec::with_capacity(n);
    let mut i: usize = 0;
    while i < n
        invariant
            i <= n,
            r@ == zeros(i as nat),
        decreases n - i,
    {
        r.push(0u8);
        i += 1;
        assert(r@ =~= zeros(i as nat));
    }
    r
}

/// Lays out a request whose length is known to fit.
pub(crate) fn build_frame(address: u8, cmd: u8, payload: &Vec<u8>) -> (r: Vec<u8>)
    requires
        payload@.len() + 2 <= LONGEST_SPI_TRANSFER,
    ensures
        r@ == frame(address, cmd, payload@),
{
    let mut r: Vec<u8> = Vec::with_capacity(payload.len() + 2);
    r.push(address);
    r.push(cmd);
    let mut i: usize = 0;
    while i < payload.len()
        invariant
            i <= payload@.len(),
            r@ == frame(address, cmd, payload@.subrange(0, i as int)),
        decreases payload@.len() - i,
    {
        r.push(payload[i]);
        i += 1;
        assert(r@ =~= frame(address, cmd, payload@.subrange(0, i as int)));
    }
    assert(payload@.subrange(0, payload@.len() as int) =~= payload@);
    r
}

/// Lays out a request, or refuses it when it would not fit in one transfer.
fn checked_frame(address: u8, cmd: u8, payload: &Vec<u8>) -> (r: Result<Vec<u8>, SPIError>)
    ensures
        fits(payload@.len() + 2) <==> r is Ok,
        !fits(payload@.len() + 2) ==> too_long(r),
        r matches Ok(f) ==> f@ == frame(address, cmd, payload@),
{
    if payload.len() > LONGEST_SPI_TRANSFER - 2 {
        Err(SPIError::TooLongSPITransfer)
    } else {
        Ok(build_frame(address, cmd, payload))
    }
}

/// The request for a string of `len` bytes. Its length is `4 + len`.
pub fn read_vec_request(address: u8, cmd: GetStringCmd, len: usize) -> (r: Result<Vec<u8>, SPIError>)
    ensures
        fits((len + 4) as nat) <==> r is Ok,
        !fits((len + 4) as nat) ==> too_long(r),
        r matches Ok(f) ==> f@ == frame(address, cmd.id(), zeros((len + 2) as nat)),
{
    if len > LONGEST_SPI_TRANSFER - 4 {
        Err(SPIError::TooLongSPITransfer)
    } else {
        let z = zero_bytes(len + 2);
        Ok(build_frame(address, cmd.id(), &z))
    }
}

/// The answer to a string request: the `len` bytes after the marker.
pub fn read_vec_response(rx: &Vec<u8>, len: usize) -> (r: Result<Vec<u8>, SPIError>)
    requires
        rx@.len() == len + 4,
    ensures
        acked(rx@) <==> r is Ok,
        !acked(rx@) ==> bad_response(r),
        r matches Ok(v) ==> v@ == rx@.subrange(4, 4 + len),
{
    if rx[3] != ACK {
        Err(SPIError::BadResponse)
    } else {
        Ok(tail_from_4(rx))
    }
}

/// The bytes of `rx` from offset 4 on.
fn tail_from_4(rx: &Vec<u8>) -> (r: Vec<u8>)
    requires
        rx@.len() >= 4,
    ensures
        r@ == rx@.subrange(4, rx@.len() as int),
{
    let mut r: Vec<u8> = Vec::with_capacity(rx.len() - 4);
    let mut i: usize = 4;
    while i < rx.len()
        invariant
            4 <= i <= rx@.len(),
            r@ == rx@.subrange(4, i as int),
        decreases rx@.len() - i,
    {
        r.push(rx[i]);
        i += 1;
        assert(r@ =~= rx@.subrange(4, i as int));
    }
    r
}

/// A request that carries `data` and expects no answer. Its length is
/// `2 + data.len()`; the request is refused when that does not fit.
pub fn send_array_request(address: u8, cmd: SendArrayCmd, data: &Vec<u8>) -> (r: Result<Vec<u8>, SPIError>)
    ensures
        fits(data@.len() + 2) <==> r is Ok,
        !fits(data@.len() + 2) ==> too_long(r),
        r matches Ok(f) ==> f@ == frame(address, cmd.id(), data@),
{
    checked_frame(address, cmd.id(), data)
}

/// A request that carries `data` and is answered in the same exchange. Its
/// length is `2 + data.len()`; the request is refused when that does not fit.
pub fn send_read_array_request(address: u8, cmd: SendReadArrayCmd, data: &Vec<u8>) -> (r: Result<Vec<u8>, SPIError>)
    ensures
        fits(data@.len() + 2) <==> r is Ok,
        !fits(data@.len() + 2) ==> too_long(r),
        r matches Ok(f) ==> f@ == frame(address, cmd.id(), data@),
{
    checked_frame(address, cmd.id(), data)
}

/// The answer to a send-read request: every byte after the marker.
pub fn send_read_array_response(rx: &Vec<u8>) -> (r: Result<Vec<u8>, SPIError>)
    requires
        rx@.len() >= 4,
    ensures
        acked(rx@) <==> r is Ok,
        !acked(rx@) ==> bad_response(r),
        r matches Ok(v) ==> v@ == rx@.subrange(4, rx@.len() as int),
{
    if rx[3] != ACK {
        Err(SPIError::BadResponse)
    } else {
        Ok(tail_from_4(rx))
    }
}

/// The eight-byte request for a 32-bit value.
pub fn read_32_request(address: u8, cmd: ReadU32Cmd) -> (r: Vec<u8>)
    ensures
        r@ == frame(address, cmd.id(), zeros(6)),
{
    let z = zero_bytes(6);
    build_frame(address, cmd.id(), &z)
}

/// The answer to a 32-bit request: bytes 4 to 7, big-endian.
pub fn read_32_response(rx: &Vec<u8>) -> (r: Result<u32, SPIError>)
    requires
        rx@.len() == 8,
    ensures
        acked(rx@) <==> r is Ok,
        !acked(rx@) ==> bad_response(r),
        r matches Ok(v) ==> v == be32(rx@[4], rx@[5], rx@[6], rx@[7]),
{
    if rx[3] != ACK {
        Err(SPIError::BadResponse)
    } else {
        Ok(u32_from_be(rx[4], rx[5], rx[6], rx[7]))
    }
}

/// The six-byte request for a 16-bit value.
pub fn read_16_request(address: u8, cmd: GetVoltageCmd) -> (r: Vec<u8>)
    ensures
        r@ == frame(address, cmd.id(), zeros(4)),
{
    let z = zero_bytes(4);
    build_frame(address, cmd.id(), &z)
}

/// The answer to a 16-bit request: bytes 4 and 5, big-endian.
pub fn read_16_response(rx: &Vec<u8>) -> (r: Result<u16, SPIError>)
    requires
        rx@.len() == 6,
    ensures
        acked(rx@) <==> r is Ok,
        !acked(rx@) ==> bad_response(r),
        r matches Ok(v) ==> v == be16(rx@[4], rx@[5]),
{
    if rx[3] != ACK {
        Err(SPIError::BadResponse)
    } else {
        Ok(u16_from_be(rx[4], rx[5]))
    }
}

/// The three-byte request that writes one byte. It is never answered, so no
/// response is checked.
pub fn write_8_request(address: u8, cmd: WriteU8Cmd, value: u8) -> (r: Vec<u8>)
    ensures
        r@ == frame(address, cmd.id(), seq![value]),
{
    let v = vec![value];
    build_frame(address, cmd.id(), &v)
}

} // verus!
