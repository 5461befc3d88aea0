use vstd::prelude::*;
use vstd::string::StringExecFns;

verus! {

/// The sixteen hexadecimal digits, in order.
pub open spec fn hex_digits() -> Seq<char> {
    seq!['0', '1', '2', '3', '4', '5', '6', '7', '8', '9', 'a', 'b', 'c', 'd', 'e', 'f']
}

/// The `i`-th four-bit group of `n`, least significant first.
pub open spec fn nibble(n: u64, i: int) -> u64 {
    (n >> (4 * i) as u64) & 15u64
}

/// `n` as sixteen hexadecimal digits, least significant first.
pub open spec fn hex_of(n: u64) -> Seq<char> {
    Seq::new(16, |i: int| hex_digits()[nibble(n, i) as int])
}

/// The id handed out for counter value `n` under `prefix`.
pub open spec fn id_of(prefix: Seq<char>, n: u64) -> Seq<char> {
    prefix + seq!['-'] + hex_of(n)
}

/// Hands out correlation ids: a fixed prefix (a nonce of the process) followed
/// by a counter that grows with every id.
pub struct RequestIdGenerator {
    prefix: String,
    next: u64,
}

proof fn nibble_shift(n: u64, s: u64)
    requires
        s <= 60,
    ensures
        (n >> s) >> 4u64 == n >> ((s + 4) as u64),
{
    assert((n >> s) >> 4u64 == n >> ((s + 4) as u64)) by (bit_vector)
        requires
            s <= 60,
    ;
}

proof fn mask_below_sixteen(x: u64)
    by (bit_vector)
    ensures
        x & 15u64 < 16u64,
{
}

proof fn shift_by_zero(x: u64)
    by (bit_vector)
    ensures
        x >> 0u64 == x,
{
}

proof fn nibbles_determine(a: u64, b: u64)
    by (bit_vector)
    requires
        (a >> 0u64) & 15u64 == (b >> 0u64) & 15u64,
        (a >> 4u64) & 15u64 == (b >> 4u64) & 15u64,
        (a >> 8u64) & 15u64 == (b >> 8u64) & 15u64,
        (a >> 12u64) & 15u64 == (b >> 12u64) & 15u64,
        (a >> 16u64) & 15u64 == (b >> 16u64) & 15u64,
        (a >> 20u64) & 15u64 == (b >> 20u64) & 15u64,
        (a >> 24u64) & 15u64 == (b >> 24u64) & 15u64,
        (a >> 28u64) & 15u64 == (b >> 28u64) & 15u64,
        (a >> 32u64) & 15u64 == (b >> 32u64) & 15u64,
        (a >> 36u64) & 15u64 == (b >> 36u64) & 15u64,
        (a >> 40u64) & 15u64 == (b >> 40u64) & 15u64,
        (a >> 44u64) & 15u64 == (b >> 44u64) & 15u64,
        (a >> 48u64) & 15u64 == (b >> 48u64) & 15u64,
        (a >> 52u64) & 15u64 == (b >> 52u64) & 15u64,
        (a >> 56u64) & 15u64 == (b >> 56u64) & 15u64,
        (a >> 60u64) & 15u64 == (b >> 60u64) & 15u64,
    ensures
        a == b,
{
}

/// Ids for different counter values differ.
pub proof fn ids_are_distinct(prefix: Seq<char>, a: u64, b: u64)
    requires
        a != b,
    ensures
        id_of(prefix, a) != id_of(prefix, b),
{
    if id_of(prefix, a) == id_of(prefix, b) {
        let p = prefix.len() + 1;
        assert forall|i: int| 0 <= i < 16 implies nibble(a, i) == nibble(b, i) by {
            assert(id_of(prefix, a)[p + i] == hex_of(a)[i]);
            assert(id_of(prefix, b)[p + i] == hex_of(b)[i]);
            mask_below_sixteen(a >> (4 * i) as u64);
            mask_below_sixteen(b >> (4 * i) as u64);
        }
        assert(nibble(a, 0) == nibble(b, 0));
        assert(nibble(a, 1) == nibble(b, 1));
        assert(nibble(a, 2) == nibble(b, 2));
        assert(nibble(a, 3) == nibble(b, 3));
        assert(nibble(a, 4) == nibble(b, 4));
        assert(nibble(a, 5) == nibble(b, 5));
        assert(nibble(a, 6) == nibble(b, 6));
        assert(nibble(a, 7) == nibble(b, 7));
        assert(nibble(a, 8) == nibble(b, 8));
        assert(nibble(a, 9) == nibble(b, 9));
        assert(nibble(a, 10) == nibble(b, 10));
        assert(nibble(a, 11) == nibble(b, 11));
        assert(nibble(a, 12) == nibble(b, 12));
        assert(nibble(a, 13) == nibble(b, 13));
        assert(nibble(a, 14) == nibble(b, 14));
        assert(nibble(a, 15) == nibble(b, 15));
        nibbles_determine(a, b);
    }
}

fn hex_digit(d: u64) -> (r: &'static str)
    requires
        d < 16,
    ensures
        r@ == seq![hex_digits()[d as int]],
{
    match d {
        0 => {
            proof {
                reveal_strlit("0");
            }
            "0"
        },
        1 => {
            proof {
                reveal_strlit("1");
            }
            "1"
        },
        2 => {
            proof {
                reveal_strlit("2");
            }
            "2"
        },
        3 => {
            proof {
                reveal_strlit("3");
            }
            "3"
        },
        4 => {
            proof {
                reveal_strlit("4");
            }
            "4"
        },
        5 => {
            proof {
                reveal_strlit("5");
            }
            "5"
        },
        6 => {
            proof {
                reveal_strlit("6");
            }
            "6"
        },
        7 => {
            proof {
                reveal_strlit("7");
            }
            "7"
        },
        8 => {
            proof {
                reveal_strlit("8");
            }
            "8"
        },
        9 => {
            proof {
                reveal_strlit("9");
            }
            "9"
        },
        10 => {
            proof {
                reveal_strlit("a");
            }
            "a"
        },
        11 => {
            proof {
                reveal_strlit("b");
            }
            "b"
        },
        12 => {
            proof {
                reveal_strlit("c");
            }
            "c"
        },
        13 => {
            proof {
                reveal_strlit("d");
            }
            "d"
        },
        14 => {
            proof {
                reveal_strlit("e");
            }
            "e"
        },
        15 => {
            proof {
                reveal_strlit("f");
            }
            "f"
        },
        _ => {
            proof {
                reveal_strlit("f");
            }
            "f"
        },
    }
}

impl RequestIdGenerator {
    /// A generator whose ids start with `prefix` and count from zero.
    pub fn new(prefix: String) -> (r: RequestIdGenerator)
        ensures
            r.prefix() == prefix@,
            r.next_value() == 0,
    {
        RequestIdGenerator { prefix, next: 0 }
    }

    pub closed spec fn prefix(&self) -> Seq<char> {
        self.prefix@
    }

    /// The counter value of the next id.
    pub closed spec fn next_value(&self) -> u64 {
        self.next
    }

    /// Whether another id can be handed out.
    pub fn has_next(&self) -> (r: bool)
        ensures
            r == (self.next_value() < u64::MAX),
    {
        self.next < u64::MAX
    }

    /// Hands out the next id and advances the counter.
    pub fn generate(&mut self) -> (r: String)
        requires
            old(self).next_value() < u64::MAX,
        ensures
            r@ == id_of(old(self).prefix(), old(self).next_value()),
            final(self).prefix() == old(self).prefix(),
            final(self).next_value() == old(self).next_value() + 1,
    {
        let n = self.next;
        let mut out = self.prefix.clone();
        out.append("-");
        proof {
            reveal_strlit("-");
        }
        let ghost head = out@;
        proof {
            shift_by_zero(n);
        }
        let mut m: u64 = n;
        let mut i: u64 = 0;
        while i < 16
            invariant
                i <= 16,
                m == n >> (4 * i) as u64,
                out@ == head + hex_of(n).take(i as int),
            decreases 16 - i,
        {
            proof {
                nibble_shift(n, (4 * i) as u64);
            }
            let d = m & 15u64;
            proof {
                mask_below_sixteen(m);
            }
            out.append(hex_digit(d));
            assert(hex_of(n).take(i + 1) =~= hex_of(n).take(i as int).push(hex_digits()[d as int]));
            m = m >> 4u64;
            i = i + 1;
        }
        assert(hex_of(n).take(16) =~= hex_of(n));
        self.next = n + 1;
        out
    }
}

} // verus!
