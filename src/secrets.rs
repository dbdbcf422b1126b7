//! The secrets file: one credential per line (a hex private key, or a
//! mnemonic phrase when longer than 64 bytes), optionally followed by `:`
//! and a receiver address for that account.
use vstd::prelude::*;
use crate::chain::{
    key_address_of, mnemonic_key, mnemonic_key_of, parse_address, address_of_text,
    private_key, private_key_of,
};
use crate::types::Address;
use crate::uint::Uint256;
use crate::wallet::UserWallet;

verus! {

/// Unicode `White_Space`, as `char::is_whitespace` and `str::trim` use it.
pub open spec fn is_white_space(c: char) -> bool {
    let u = c as u32;
    (0x9 <= u <= 0xd) || u == 0x20 || u == 0x85 || u == 0xa0 || u == 0x1680
        || (0x2000 <= u <= 0x200a) || u == 0x2028 || u == 0x2029 || u == 0x202f
        || u == 0x205f || u == 0x3000
}

pub open spec fn trim_start(s: Seq<char>) -> Seq<char>
    decreases s.len(),
{
    if s.len() > 0 && is_white_space(s[0]) {
        trim_start(s.drop_first())
    } else {
        s
    }
}

pub open spec fn trim_end(s: Seq<char>) -> Seq<char>
    decreases s.len(),
{
    if s.len() > 0 && is_white_space(s.last()) {
        trim_end(s.drop_last())
    } else {
        s
    }
}

/// The text without leading and trailing white space.
pub open spec fn trim(s: Seq<char>) -> Seq<char> {
    trim_end(trim_start(s))
}

/// The pieces between separators: `k` separators give `k + 1` pieces.
pub open spec fn split_on(s: Seq<char>, sep: char) -> Seq<Seq<char>>
    decreases s.len(),
{
    if s.len() == 0 {
        seq![seq![]]
    } else {
        let prev = split_on(s.drop_last(), sep);
        if s.last() == sep {
            prev.push(seq![])
        } else {
            prev.update(prev.len() - 1, prev.last().push(s.last()))
        }
    }
}

/// The number of bytes of a character in UTF-8.
pub open spec fn utf8_width(c: char) -> nat {
    let u = c as u32;
    if u < 0x80 {
        1
    } else if u < 0x800 {
        2
    } else if u < 0x10000 {
        3
    } else {
        4
    }
}

/// The number of bytes of a text in UTF-8.
pub open spec fn utf8_len(s: Seq<char>) -> nat
    decreases s.len(),
{
    if s.len() == 0 {
        0
    } else {
        utf8_len(s.drop_last()) + utf8_width(s.last())
    }
}

/// The secret key a credential stands for: longer than 64 bytes it is read
/// as a mnemonic phrase, otherwise as a hex private key.
pub open spec fn credential_key(cred: Seq<char>) -> Option<Seq<u8>> {
    if utf8_len(cred) > 64 {
        mnemonic_key_of(cred)
    } else {
        private_key_of(cred)
    }
}

/// The receiver of a line split at `:`: the second piece where there are
/// exactly two pieces and it parses as an address, else the default.
pub open spec fn line_receiver(parts: Seq<Seq<char>>, default_receiver: Address) -> Seq<u8> {
    if parts.len() == 2 {
        match address_of_text(trim(parts[1])) {
            Some(a) => a,
            None => default_receiver.bytes@,
        }
    } else {
        default_receiver.bytes@
    }
}

/// The key and receiver of one line, or `None` where its credential gives no
/// usable key.
pub open spec fn line_entry(line: Seq<char>, default_receiver: Address) -> Option<(Seq<u8>, Seq<u8>)> {
    let parts = split_on(trim(line), ':');
    match credential_key(trim(parts[0])) {
        Some(k) => if k.len() == 32 && key_address_of(k) is Some {
            Some((k, line_receiver(parts, default_receiver)))
        } else {
            None
        },
        None => None,
    }
}

/// The entries of the lines that give one, in order.
pub open spec fn entries_of(lines: Seq<Seq<char>>, default_receiver: Address) -> Seq<(Seq<u8>, Seq<u8>)>
    decreases lines.len(),
{
    if lines.len() == 0 {
        seq![]
    } else {
        let prev = entries_of(lines.drop_last(), default_receiver);
        match line_entry(lines.last(), default_receiver) {
            Some(e) => prev.push(e),
            None => prev,
        }
    }
}

/// Whether a character is white space.
pub fn is_white_space_char(c: char) -> (r: bool)
    ensures
        r == is_white_space(c),
{
    let u = c as u32;
    (0x9 <= u && u <= 0xd) || u == 0x20 || u == 0x85 || u == 0xa0 || u == 0x1680
        || (0x2000 <= u && u <= 0x200a) || u == 0x2028 || u == 0x2029 || u == 0x202f
        || u == 0x205f || u == 0x3000
}

/// The text without leading and trailing white space.
pub fn trim_chars(s: &Vec<char>) -> (r: Vec<char>)
    ensures
        r@ == trim(s@),
{
    let n = s.len();
    let mut a: usize = 0;
    assert(s@.subrange(0, n as int) =~= s@);
    while a < n && is_white_space_char(s[a])
        invariant
            n == s@.len(),
            0 <= a <= n,
            trim_start(s@) == trim_start(s@.subrange(a as int, n as int)),
        decreases n - a,
    {
        assert(s@.subrange(a as int, n as int).drop_first() =~= s@.subrange(a + 1, n as int));
        a = a + 1;
    }
    assert(s@.subrange(0, n as int) =~= s@);
    assert(trim_start(s@) == s@.subrange(a as int, n as int));
    let mut b: usize = n;
    while b > a && is_white_space_char(s[b - 1])
        invariant
            n == s@.len(),
            0 <= a <= b <= n,
            trim(s@) == trim_end(s@.subrange(a as int, b as int)),
        decreases b - a,
    {
        assert(s@.subrange(a as int, b as int).drop_last() =~= s@.subrange(a as int, b - 1));
        b = b - 1;
    }
    let mut r: Vec<char> = Vec::new();
    let mut i: usize = a;
    while i < b
        invariant
            0 <= a <= i <= b <= n,
            n == s@.len(),
            r@ == s@.subrange(a as int, i as int),
        decreases b - i,
    {
        r.push(s[i]);
        i = i + 1;
        assert(r@ =~= s@.subrange(a as int, i as int));
    }
    r
}

/// The pieces of a text between separators.
pub fn split_chars(s: &Vec<char>, sep: char) -> (r: Vec<Vec<char>>)
    ensures
        r@.len() == split_on(s@, sep).len(),
        forall|k: int| 0 <= k < r@.len() ==> (#[trigger] r@[k])@ == split_on(s@, sep)[k],
{
    let mut done: Vec<Vec<char>> = Vec::new();
    let mut cur: Vec<char> = Vec::new();
    let n = s.len();
    let mut i: usize = 0;
    assert(s@.subrange(0, 0) =~= Seq::<char>::empty());
    while i < n
        invariant
            n == s@.len(),
            0 <= i <= n,
            split_on(s@.subrange(0, i as int), sep).len() == done@.len() + 1,
            forall|k: int| 0 <= k < done@.len() ==> (#[trigger] done@[k])@ == split_on(s@.subrange(0, i as int), sep)[k],
            cur@ == split_on(s@.subrange(0, i as int), sep).last(),
        decreases n - i,
    {
        assert(s@.subrange(0, i + 1).drop_last() =~= s@.subrange(0, i as int));
        let c = s[i];
        if c == sep {
            let mut fresh: Vec<char> = Vec::new();
            std::mem::swap(&mut fresh, &mut cur);
            done.push(fresh);
        } else {
            cur.push(c);
        }
        i = i + 1;
    }
    assert(s@.subrange(0, n as int) =~= s@);
    done.push(cur);
    done
}

/// Whether a text takes more than 64 bytes in UTF-8.
pub fn longer_than_64_bytes(s: &Vec<char>) -> (r: bool)
    ensures
        r == (utf8_len(s@) > 64),
{
    let mut acc: usize = 0;
    let mut i: usize = 0;
    while i < s.len()
        invariant
            0 <= i <= s@.len(),
            acc == utf8_len(s@.subrange(0, i as int)),
            acc <= 64,
        decreases s@.len() - i,
    {
        assert(s@.subrange(0, i + 1).drop_last() =~= s@.subrange(0, i as int));
        let u = s[i] as u32;
        let w: usize = if u < 0x80 {
            1
        } else if u < 0x800 {
            2
        } else if u < 0x10000 {
            3
        } else {
            4
        };
        acc = acc + w;
        i = i + 1;
        if acc > 64 {
            proof {
                lemma_utf8_len_grows(s@, i as int);
            }
            return true;
        }
    }
    assert(s@.subrange(0, s@.len() as int) =~= s@);
    false
}

/// The UTF-8 length of a prefix is at most that of the whole text.
proof fn lemma_utf8_len_grows(s: Seq<char>, i: int)
    requires
        0 <= i <= s.len(),
    ensures
        utf8_len(s.subrange(0, i)) <= utf8_len(s),
    decreases s.len() - i,
{
    if i < s.len() {
        lemma_utf8_len_grows(s, i + 1);
        assert(s.subrange(0, i + 1).drop_last() =~= s.subrange(0, i));
    } else {
        assert(s.subrange(0, i) =~= s);
    }
}

/// Splitting gives at least one piece.
proof fn lemma_split_nonempty(s: Seq<char>, sep: char)
    ensures
        split_on(s, sep).len() >= 1,
    decreases s.len(),
{
    if s.len() > 0 {
        lemma_split_nonempty(s.drop_last(), sep);
    }
}

/// The account of one line of the secrets file, or `None` where the line
/// holds no usable credential.
pub fn parse_secret_line(line: &Vec<char>, default_receiver: Address) -> (r: Option<UserWallet>)
    ensures
        r is Some <==> line_entry(line@, default_receiver) is Some,
        r matches Some(w) ==> {
            &&& w.wf()
            &&& line_entry(line@, default_receiver) == Some((w.key@, w.receiver.bytes@))
            &&& w.balance.value() == 0
            &&& w.nonce.value() == 0
        },
{
    let t = trim_chars(line);
    let parts = split_chars(&t, ':');
    let ghost ps = split_on(trim(line@), ':');
    proof {
        lemma_split_nonempty(trim(line@), ':');
    }
    assert(parts@[0]@ == ps[0]);
    let cred = trim_chars(&parts[0]);
    let key = if longer_than_64_bytes(&cred) {
        mnemonic_key(&cred)
    } else {
        private_key(&cred)
    };
    let key = match key {
        Some(k) => k,
        None => {
            return None;
        },
    };
    let receiver = if parts.len() == 2 {
        assert(parts@[1]@ == ps[1]);
        let text = trim_chars(&parts[1]);
        match parse_address(&text) {
            Some(a) => a,
            None => default_receiver,
        }
    } else {
        default_receiver
    };
    assert(receiver.bytes@ == line_receiver(split_on(trim(line@), ':'), default_receiver));
    UserWallet::new(key, receiver)
}

/// The accounts of a secrets file's content, one per usable line, in order;
/// lines without a usable credential are skipped.
pub fn read_secrets_file(content: &Vec<char>, default_receiver: Address) -> (r: Vec<UserWallet>)
    ensures
        r@.len() == entries_of(split_on(content@, '\n'), default_receiver).len(),
        forall|k: int| 0 <= k < r@.len() ==> {
            &&& (#[trigger] r@[k]).wf()
            &&& entries_of(split_on(content@, '\n'), default_receiver)[k] == (r@[k].key@, r@[k].receiver.bytes@)
            &&& r@[k].balance.value() == 0
            &&& r@[k].nonce.value() == 0
        },
{
    let lines = split_chars(content, '\n');
    let ghost ls = split_on(content@, '\n');
    let mut r: Vec<UserWallet> = Vec::new();
    let mut i: usize = 0;
    while i < lines.len()
        invariant
            lines@.len() == ls.len(),
            forall|k: int| 0 <= k < lines@.len() ==> (#[trigger] lines@[k])@ == ls[k],
            0 <= i <= ls.len(),
            r@.len() == entries_of(ls.subrange(0, i as int), default_receiver).len(),
            forall|k: int| 0 <= k < r@.len() ==> {
                &&& (#[trigger] r@[k]).wf()
                &&& entries_of(ls.subrange(0, i as int), default_receiver)[k] == (r@[k].key@, r@[k].receiver.bytes@)
                &&& r@[k].balance.value() == 0
                &&& r@[k].nonce.value() == 0
            },
        decreases ls.len() - i,
    {
        assert(ls.subrange(0, i + 1).drop_last() =~= ls.subrange(0, i as int));
        assert(lines@[i as int]@ == ls[i as int]);
        match parse_secret_line(&lines[i], default_receiver) {
            Some(w) => {
                r.push(w);
            },
            None => {},
        }
        i = i + 1;
    }
    assert(ls.subrange(0, ls.len() as int) =~= ls);
    r
}

} // verus!
