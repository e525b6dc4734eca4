//! Framing of a streamed answer (server-sent events).
//!
//! A streamed answer arrives in chunks of bytes that split it anywhere. The
//! decoder keeps the unfinished line and hands out, for every finished line
//! that carries data (`data:` and the rest, after one optional space, without
//! a trailing carriage return), that data. Other lines are passed over.
use vstd::prelude::*;

verus! {

/// The bytes of `data:`.
pub open spec fn data_prefix() -> Seq<u8> {
    seq![100u8, 97u8, 116u8, 97u8, 58u8]
}

/// The bytes of `[DONE]`, the data that ends a stream.
pub open spec fn done_marker() -> Seq<u8> {
    seq![91u8, 68u8, 79u8, 78u8, 69u8, 93u8]
}

/// A line without its trailing carriage return, if it has one.
pub open spec fn trim_cr(line: Seq<u8>) -> Seq<u8> {
    if line.len() > 0 && line.last() == 13u8 {
        line.drop_last()
    } else {
        line
    }
}

/// The data that a finished line carries, if it is a data line.
pub open spec fn line_data(line: Seq<u8>) -> Option<Seq<u8>> {
    let l = trim_cr(line);
    if l.len() >= 5 && l.subrange(0, 5) == data_prefix() {
        let rest = l.subrange(5, l.len() as int);
        if rest.len() > 0 && rest[0] == 32u8 {
            Some(rest.drop_first())
        } else {
            Some(rest)
        }
    } else {
        None
    }
}

/// Reading `chunk` after the unfinished line `pending`: the new unfinished
/// line and the data of the lines finished on the way, in order.
pub open spec fn scan(pending: Seq<u8>, chunk: Seq<u8>) -> (Seq<u8>, Seq<Seq<u8>>)
    decreases chunk.len(),
{
    if chunk.len() == 0 {
        (pending, Seq::empty())
    } else {
        let before = scan(pending, chunk.drop_last());
        let c = chunk.last();
        if c == 10u8 {
            (
                Seq::empty(),
                match line_data(before.0) {
                    Some(d) => before.1.push(d),
                    None => before.1,
                },
            )
        } else {
            (before.0.push(c), before.1)
        }
    }
}

/// Feeding two chunks one after the other reads the same as feeding them
/// joined: where the stream is cut into chunks does not change what comes out.
pub proof fn law_scan_chunking(pending: Seq<u8>, a: Seq<u8>, b: Seq<u8>)
    ensures
        ({
            let first = scan(pending, a);
            let second = scan(first.0, b);
            scan(pending, a + b) == (second.0, first.1 + second.1)
        }),
    decreases b.len(),
{
    let first = scan(pending, a);
    if b.len() == 0 {
        assert(a + b =~= a);
        assert(first.1 + Seq::<Seq<u8>>::empty() =~= first.1);
    } else {
        law_scan_chunking(pending, a, b.drop_last());
        assert((a + b).drop_last() =~= a + b.drop_last());
        assert((a + b).last() == b.last());
        let mid = scan(first.0, b.drop_last());
        match line_data(mid.0) {
            Some(d) => {
                assert(first.1 + mid.1.push(d) =~= (first.1 + mid.1).push(d));
            },
            None => {},
        }
    }
}

/// A decoder of server-sent events; it holds the unfinished line.
pub struct EventDecoder {
    pending: Vec<u8>,
}

impl View for EventDecoder {
    type V = Seq<u8>;

    closed spec fn view(&self) -> Seq<u8> {
        self.pending@
    }
}

/// The data of a finished line, if it is a data line.
pub fn data_of_line(line: &Vec<u8>) -> (res: Option<Vec<u8>>)
    ensures
        match line_data(line@) {
            Some(d) => res matches Some(v) && v@ == d,
            None => res is None,
        },
{
    let mut end: usize = line.len();
    if end > 0 && line[end - 1] == 13u8 {
        end = end - 1;
    }
    let ghost l = trim_cr(line@);
    assert(l =~= line@.subrange(0, end as int));
    if end >= 5 && line[0] == 100u8 && line[1] == 97u8 && line[2] == 116u8 && line[3] == 97u8
        && line[4] == 58u8 {
        assert(l.subrange(0, 5) =~= data_prefix());
        let start: usize = if end > 5 && line[5] == 32u8 { 6 } else { 5 };
        let mut res: Vec<u8> = Vec::new();
        let mut i: usize = start;
        while i < end
            invariant
                start <= i <= end <= line@.len(),
                res@ == line@.subrange(start as int, i as int),
            decreases end - i,
        {
            res.push(line[i]);
            i = i + 1;
            proof {
                assert(res@ =~= line@.subrange(start as int, i as int));
            }
        }
        proof {
            let rest = l.subrange(5, l.len() as int);
            if rest.len() > 0 && rest[0] == 32u8 {
                assert(res@ =~= rest.drop_first());
            } else {
                assert(res@ =~= rest);
            }
        }
        Some(res)
    } else {
        proof {
            if l.len() >= 5 && l.subrange(0, 5) == data_prefix() {
                assert(l.subrange(0, 5)[0] == line@[0]);
                assert(l.subrange(0, 5)[1] == line@[1]);
                assert(l.subrange(0, 5)[2] == line@[2]);
                assert(l.subrange(0, 5)[3] == line@[3]);
                assert(l.subrange(0, 5)[4] == line@[4]);
            }
        }
        None
    }
}

/// Whether the data is the end marker `[DONE]`.
pub fn is_done(data: &Vec<u8>) -> (res: bool)
    ensures
        res == (data@ == done_marker()),
{
    let res = data.len() == 6 && data[0] == 91u8 && data[1] == 68u8 && data[2] == 79u8
        && data[3] == 78u8 && data[4] == 69u8 && data[5] == 93u8;
    proof {
        if data@ == done_marker() {
            assert(data@[0] == 91u8);
        }
        if res {
            assert(data@ =~= done_marker());
        }
    }
    res
}

impl EventDecoder {
    /// A decoder that has read nothing.
    pub fn new() -> (res: Self)
        ensures
            res@ == Seq::<u8>::empty(),
    {
        EventDecoder { pending: Vec::new() }
    }

    /// Reads the next chunk; returns the data of the lines it finishes.
    pub fn feed(&mut self, chunk: &[u8]) -> (res: Vec<Vec<u8>>)
        ensures
            ({
                let s = scan(old(self)@, chunk@);
                &&& final(self)@ == s.0
                &&& res@.map_values(|v: Vec<u8>| v@) == s.1
            }),
    {
        let ghost start = self.pending@;
        let mut out: Vec<Vec<u8>> = Vec::new();
        let mut i: usize = 0;
        while i < chunk.len()
            invariant
                i <= chunk@.len(),
                ({
                    let s = scan(start, chunk@.take(i as int));
                    &&& self.pending@ == s.0
                    &&& out@.map_values(|v: Vec<u8>| v@) == s.1
                }),
            decreases chunk@.len() - i,
        {
            proof {
                assert(chunk@.take(i + 1).drop_last() =~= chunk@.take(i as int));
            }
            let c = chunk[i];
            if c == 10u8 {
                let mut line: Vec<u8> = Vec::new();
                std::mem::swap(&mut line, &mut self.pending);
                let ghost before = out@.map_values(|v: Vec<u8>| v@);
                match data_of_line(&line) {
                    Some(d) => {
                        out.push(d);
                        assert(out@.map_values(|v: Vec<u8>| v@) =~= before.push(line_data(line@)->0));
                    }
                    None => {}
                }
                assert(self.pending@ =~= Seq::<u8>::empty());
            } else {
                self.pending.push(c);
            }
            i = i + 1;
        }
        proof {
            assert(chunk@.take(i as int) =~= chunk@);
        }
        out
    }
}

} // verus!
