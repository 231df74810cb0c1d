//! One-shot SNTP queries and when to make them.

use crate::bytes::{be32, read_be32};
use crate::ftp::command::Ipv4;
use vstd::prelude::*;

verus! {

pub const NTP_PORT: u16 = 123;

/// Seconds between the NTP era (1900-01-01) and the Unix epoch (1970-01-01).
pub const NTP_UNIX_OFFSET: u64 = 2_208_988_800;

/// Microseconds that a name lookup may take.
pub const DNS_TIMEOUT_MICROS: u64 = 4_000_000;

/// Microseconds that a whole query may take.
pub const SNTP_TIMEOUT_MICROS: u64 = 8_000_000;

/// time.cloudflare.com anycast, used when the name lookup fails.
pub open spec fn fallback_server() -> Ipv4 {
    Ipv4 { a: 162, b: 159, c: 200, d: 1 }
}

#[derive(Clone, Copy, Debug, PartialEq, Eq, Structural)]
pub enum SntpError {
    Timeout,
    Socket,
    Send,
    BadReply,
}

/// What a reply says: the transmit time stamp of a server that is synchronised,
/// from 1970 on.
pub open spec fn reply_time(data: Seq<u8>) -> Result<u64, SntpError> {
    if data.len() < 48 {
        Err(SntpError::BadReply)
    } else if data[0] % 8 != 4 || data[1] == 0 {
        // Mode 4 is a server; stratum 0 is a refusal.
        Err(SntpError::BadReply)
    } else if be32(data.subrange(40, 44)) < NTP_UNIX_OFFSET {
        Err(SntpError::BadReply)
    } else {
        Ok((be32(data.subrange(40, 44)) - NTP_UNIX_OFFSET) as u64)
    }
}

/// Unix seconds from the server's reply.
pub fn parse_reply(data: &[u8]) -> (result: Result<u64, SntpError>)
    ensures
        result == reply_time(data@),
{
    if data.len() < 48 {
        return Err(SntpError::BadReply);
    }
    if data[0] % 8 != 4 || data[1] == 0 {
        return Err(SntpError::BadReply);
    }
    let seconds: u64 = read_be32(data, 40) as u64;
    match seconds.checked_sub(NTP_UNIX_OFFSET) {
        Some(unix_seconds) => Ok(unix_seconds),
        None => Err(SntpError::BadReply),
    }
}

/// The client's request: version 3, mode 3, everything else zero.
pub open spec fn request_bytes() -> Seq<u8> {
    seq![0x1bu8] + crate::bytes::zeros(47)
}

/// The client's request.
pub fn sntp_request() -> (request: Vec<u8>)
    ensures
        request@ == request_bytes(),
        request@.len() == 48,
{
    let mut request: Vec<u8> = Vec::new();
    request.push(0x1b);
    crate::bytes::push_zeros(&mut request, 47);
    assert(request@ =~= request_bytes());
    request
}

/// What a query waits for.
#[derive(Clone, Copy, Debug)]
pub enum SntpStage {
    /// The address of the server.
    Resolve,
    /// A socket.
    Bind { server: Ipv4 },
    /// The request to be sent.
    Send { server: Ipv4 },
    /// The server's reply.
    Receive { server: Ipv4 },
    Finished(Result<u64, SntpError>),
}

/// What happened.
#[derive(Clone, Copy, Debug)]
pub enum SntpEvent<'a> {
    /// The first address that the lookup gave, if it gave one.
    Resolved(Option<Ipv4>),
    Bound(bool),
    Sent(bool),
    Datagram { from: Ipv4, port: u16, data: &'a [u8] },
    TimedOut,
}

/// The query after an event. Stray datagrams from other hosts are ignored.
pub open spec fn sntp_next(stage: SntpStage, event: SntpEvent) -> SntpStage {
    match (stage, event) {
        (SntpStage::Finished(_), _) => stage,
        (_, SntpEvent::TimedOut) => SntpStage::Finished(Err(SntpError::Timeout)),
        (SntpStage::Resolve, SntpEvent::Resolved(Some(server))) => SntpStage::Bind { server },
        (SntpStage::Resolve, SntpEvent::Resolved(None)) => SntpStage::Bind {
            server: fallback_server(),
        },
        (SntpStage::Bind { server }, SntpEvent::Bound(bound)) => if bound {
            SntpStage::Send { server }
        } else {
            SntpStage::Finished(Err(SntpError::Socket))
        },
        (SntpStage::Send { server }, SntpEvent::Sent(sent)) => if sent {
            SntpStage::Receive { server }
        } else {
            SntpStage::Finished(Err(SntpError::Send))
        },
        (SntpStage::Receive { server }, SntpEvent::Datagram { from, port, data }) => if from
            == server && port == NTP_PORT {
            SntpStage::Finished(reply_time(data@))
        } else {
            stage
        },
        _ => stage,
    }
}

/// The query after an event.
pub fn sntp_query(stage: SntpStage, event: SntpEvent) -> (next: SntpStage)
    ensures
        next == sntp_next(stage, event),
{
    match (stage, event) {
        (SntpStage::Finished(_), _) => stage,
        (_, SntpEvent::TimedOut) => SntpStage::Finished(Err(SntpError::Timeout)),
        (SntpStage::Resolve, SntpEvent::Resolved(Some(server))) => SntpStage::Bind { server },
        (SntpStage::Resolve, SntpEvent::Resolved(None)) => SntpStage::Bind {
            server: Ipv4 { a: 162, b: 159, c: 200, d: 1 },
        },
        (SntpStage::Bind { server }, SntpEvent::Bound(bound)) => if bound {
            SntpStage::Send { server }
        } else {
            SntpStage::Finished(Err(SntpError::Socket))
        },
        (SntpStage::Send { server }, SntpEvent::Sent(sent)) => if sent {
            SntpStage::Receive { server }
        } else {
            SntpStage::Finished(Err(SntpError::Send))
        },
        (SntpStage::Receive { server }, SntpEvent::Datagram { from, port, data }) => if from
            == server && port == NTP_PORT {
            SntpStage::Finished(parse_reply(data))
        } else {
            stage
        },
        _ => stage,
    }
}

/// Only a reply from the server that was asked sets the time, and it sets it to
/// what that reply says.
pub proof fn time_comes_from_the_server(stage: SntpStage, event: SntpEvent, unix_seconds: u64)
    requires
        !(stage is Finished),
        sntp_next(stage, event) == SntpStage::Finished(Ok(unix_seconds)),
    ensures
        stage matches SntpStage::Receive { server } && (event matches SntpEvent::Datagram {
            from,
            port,
            data,
        } && from == server && port == NTP_PORT && data@[1] != 0 && be32(data@.subrange(40, 44))
            == unix_seconds + NTP_UNIX_OFFSET),
{
}

/// A request is 48 bytes, all zero but the first, which tells version three and a client.
pub proof fn requests_are_from_a_client(i: int)
    requires
        0 < i < 48,
    ensures
        request_bytes().len() == 48,
        request_bytes()[0] == 3 * 8 + 3,
        request_bytes()[i] == 0,
{
}

/// A reply of a server that keeps time gives the seconds since 1970, from those since 1900 at
/// byte 40; anything shorter, of another mode, of stratum zero or from before 1970 is refused.
pub proof fn replies_tell_the_time(data: Seq<u8>, unix_seconds: u64)
    ensures
        reply_time(data) == Ok::<u64, SntpError>(unix_seconds) <==> data.len() >= 48 && data[0] % 8
            == 4 && data[1] > 0 && 16777216 * data[40] + 65536 * data[41] + 256 * data[42]
            + data[43] == unix_seconds + 86_400 * (70 * 365 + 17),
        reply_time(data) is Err ==> reply_time(data) == Err::<u64, SntpError>(SntpError::BadReply),
{
    if data.len() >= 48 {
        crate::bytes::bytes_are_weighed(data.subrange(40, 44));
    }
}

/// The course of a query: the server's address is looked up, or else the known one is taken; a
/// socket is bound, the request sent, and the reply awaited from that address and port 123.
/// What comes from elsewhere is passed over.
pub proof fn queries_ask_one_server(server: Ipv4, from: Ipv4, port: u16, data: &[u8])
    ensures
        sntp_next(SntpStage::Resolve, SntpEvent::Resolved(Some(server))) == (SntpStage::Bind {
            server,
        }),
        sntp_next(SntpStage::Resolve, SntpEvent::Resolved(None)) == (SntpStage::Bind {
            server: Ipv4 { a: 162, b: 159, c: 200, d: 1 },
        }),
        sntp_next(SntpStage::Bind { server }, SntpEvent::Bound(true)) == (SntpStage::Send {
            server,
        }),
        sntp_next(SntpStage::Bind { server }, SntpEvent::Bound(false)) == SntpStage::Finished(
            Err(SntpError::Socket),
        ),
        sntp_next(SntpStage::Send { server }, SntpEvent::Sent(true)) == (SntpStage::Receive {
            server,
        }),
        sntp_next(SntpStage::Send { server }, SntpEvent::Sent(false)) == SntpStage::Finished(
            Err(SntpError::Send),
        ),
        from == server && port == 123 ==> sntp_next(
            SntpStage::Receive { server },
            SntpEvent::Datagram { from, port, data },
        ) == SntpStage::Finished(reply_time(data@)),
        from != server || port != 123 ==> sntp_next(
            SntpStage::Receive { server },
            SntpEvent::Datagram { from, port, data },
        ) == (SntpStage::Receive { server }),
{
}

/// A query that takes too long ends wherever it was, and one that has ended stays so.
pub proof fn queries_end(stage: SntpStage, event: SntpEvent, result: Result<u64, SntpError>)
    ensures
        !(stage is Finished) ==> sntp_next(stage, SntpEvent::TimedOut) == SntpStage::Finished(
            Err(SntpError::Timeout),
        ),
        sntp_next(SntpStage::Finished(result), event) == SntpStage::Finished(result),
        DNS_TIMEOUT_MICROS == 4 * 1_000_000,
        SNTP_TIMEOUT_MICROS == 8 * 1_000_000,
{
}

} // verus!
