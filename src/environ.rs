use vstd::prelude::*;

verus! {

/// The bytes of "DBUS_SESSION_BUS_ADDRESS=".
pub open spec fn bus_prefix() -> Seq<u8> {
    seq![68u8, 66u8, 85u8, 83u8, 95u8, 83u8, 69u8, 83u8, 83u8, 73u8, 79u8, 78u8, 95u8,
        66u8, 85u8, 83u8, 95u8, 65u8, 68u8, 68u8, 82u8, 69u8, 83u8, 83u8, 61u8]
}

/// Where the entry that holds position `i` of a NUL-separated block ends: at
/// the next NUL byte, or at the end of the block.
pub open spec fn entry_end(e: Seq<u8>, i: int) -> int
    decreases e.len() - i,
{
    if i < 0 {
        0
    } else if i >= e.len() || e[i] == 0u8 {
        i
    } else {
        entry_end(e, i + 1)
    }
}

/// Whether an entry begins at position `i` and starts with the bus prefix.
pub open spec fn names_bus_at(e: Seq<u8>, i: int) -> bool {
    &&& 0 <= i
    &&& i == 0 || e[i - 1] == 0u8
    &&& i + bus_prefix().len() <= e.len()
    &&& e.subrange(i, i + bus_prefix().len()) == bus_prefix()
}

/// The value of the first entry, beginning at position `i` or later, that
/// sets the session bus address.
pub open spec fn bus_address_from(e: Seq<u8>, i: int) -> Option<Seq<u8>>
    decreases e.len() - i,
{
    if i < 0 || i >= e.len() {
        None
    } else if names_bus_at(e, i) {
        Some(e.subrange(i + bus_prefix().len(), entry_end(e, i)))
    } else {
        bus_address_from(e, i + 1)
    }
}

proof fn lemma_entry_end_skip(e: Seq<u8>, i: int, j: int)
    requires
        0 <= i <= j <= e.len(),
        forall|k: int| i <= k < j ==> e[k] != 0u8,
    ensures
        entry_end(e, i) == entry_end(e, j),
    decreases j - i,
{
    if i < j {
        lemma_entry_end_skip(e, i + 1, j);
    }
}

/// The session bus address set in a process environment block (entries
/// "NAME=value" separated by NUL bytes): the value of the first entry
/// whose name is DBUS_SESSION_BUS_ADDRESS.
pub fn session_bus_address(environ: &[u8]) -> (r: Option<Vec<u8>>)
    ensures
        match r {
            Some(v) => bus_address_from(environ@, 0) == Some(v@),
            None => bus_address_from(environ@, 0) is None,
        },
{
    let prefix: [u8; 25] = [68u8, 66u8, 85u8, 83u8, 95u8, 83u8, 69u8, 83u8, 83u8, 73u8, 79u8, 78u8,
        95u8, 66u8, 85u8, 83u8, 95u8, 65u8, 68u8, 68u8, 82u8, 69u8, 83u8, 83u8, 61u8];
    proof {
        assert(prefix@ =~= bus_prefix());
    }
    let ghost e = environ@;
    let n = environ.len();
    let mut i: usize = 0;
    while i < n
        invariant
            n == e.len(),
            e == environ@,
            prefix@ == bus_prefix(),
            i <= n,
            bus_address_from(e, 0) == bus_address_from(e, i as int),
        decreases n - i,
    {
        if i == 0 || environ[i - 1] == 0u8 {
            let mut m: usize = 0;
            while m < 25 && i + m < n && environ[i + m] == prefix[m]
                invariant
                    n == e.len(),
                    e == environ@,
                    prefix@ == bus_prefix(),
                    i < n,
                    m <= 25,
                    i + m <= n,
                    forall|k: int| 0 <= k < m ==> e[i + k] == bus_prefix()[k],
                decreases 25 - m,
            {
                m = m + 1;
            }
            if m == 25 {
                proof {
                    assert(e.subrange(i as int, i + 25) =~= bus_prefix());
                    assert(names_bus_at(e, i as int));
                    assert forall|k: int| i <= k < i + 25 implies e[k] != 0u8 by {
                        assert(e[k] == bus_prefix()[k - i]);
                    }
                    lemma_entry_end_skip(e, i as int, i + 25);
                }
                let mut value: Vec<u8> = Vec::new();
                let mut k: usize = i + 25;
                while k < n && environ[k] != 0u8
                    invariant
                        e == environ@,
                        n == e.len(),
                        i + 25 <= k <= n,
                        entry_end(e, i as int) == entry_end(e, k as int),
                        value@ == e.subrange(i + 25, k as int),
                    decreases n - k,
                {
                    value.push(environ[k]);
                    k = k + 1;
                    proof {
                        assert(value@ =~= e.subrange(i + 25, k as int));
                    }
                }
                return Some(value);
            }
            proof {
                if names_bus_at(e, i as int) {
                    assert(e[i + m] == e.subrange(i as int, i + 25)[m as int]);
                }
            }
        }
        i = i + 1;
    }
    None
}

} // verus!
