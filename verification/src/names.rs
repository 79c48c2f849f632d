//! Names of registered devices and mount points, and the composition of full
//! lwext4 paths from user paths.
use crate::error::{Error, ErrorView};
use vstd::prelude::*;

verus! {

/// The character of a decimal digit.
pub open spec fn digit_char(d: nat) -> char {
    if d == 0 {
        '0'
    } else if d == 1 {
        '1'
    } else if d == 2 {
        '2'
    } else if d == 3 {
        '3'
    } else if d == 4 {
        '4'
    } else if d == 5 {
        '5'
    } else if d == 6 {
        '6'
    } else if d == 7 {
        '7'
    } else if d == 8 {
        '8'
    } else {
        '9'
    }
}

/// Whether a character is a decimal digit.
pub open spec fn is_digit(c: char) -> bool {
    '0' <= c <= '9'
}

/// The decimal representation of a natural number: no sign, no leading
/// zeros, and `0` for zero.
pub open spec fn decimal(n: nat) -> Seq<char>
    decreases n,
{
    if n < 10 {
        seq![digit_char(n)]
    } else {
        decimal(n / 10).push(digit_char(n % 10))
    }
}

/// The one-character string of a decimal digit.
fn digit_str(d: u64) -> (r: &'static str)
    requires
        d < 10,
    ensures
        r@ == seq![digit_char(d as nat)],
{
    proof {
        reveal_strlit("0");
        reveal_strlit("1");
        reveal_strlit("2");
        reveal_strlit("3");
        reveal_strlit("4");
        reveal_strlit("5");
        reveal_strlit("6");
        reveal_strlit("7");
        reveal_strlit("8");
        reveal_strlit("9");
    }
    let r = if d == 0 {
        "0"
    } else if d == 1 {
        "1"
    } else if d == 2 {
        "2"
    } else if d == 3 {
        "3"
    } else if d == 4 {
        "4"
    } else if d == 5 {
        "5"
    } else if d == 6 {
        "6"
    } else if d == 7 {
        "7"
    } else if d == 8 {
        "8"
    } else {
        "9"
    };
    assert(r@ =~= seq![digit_char(d as nat)]);
    r
}

/// Render a number in decimal.
pub fn decimal_string(n: u64) -> (s: String)
    ensures
        s@ == decimal(n as nat),
    decreases n,
{
    if n < 10 {
        digit_str(n).to_owned()
    } else {
        let mut s = decimal_string(n / 10);
        s.append(digit_str(n % 10));
        assert(s@ =~= decimal(n as nat));
        s
    }
}

/// A decimal representation is a nonempty string of digits, and it has one
/// digit exactly when the number is below ten.
pub proof fn lemma_decimal_digits(n: nat)
    ensures
        decimal(n).len() >= 1,
        (decimal(n).len() == 1) <==> n < 10,
        forall|i: int| 0 <= i < decimal(n).len() ==> is_digit(#[trigger] decimal(n)[i]),
    decreases n,
{
    if n >= 10 {
        lemma_decimal_digits(n / 10);
        let d = decimal(n / 10);
        assert forall|i: int| 0 <= i < decimal(n).len() implies is_digit(#[trigger] decimal(n)[i]) by {
            if i < d.len() {
                assert(decimal(n)[i] == d[i]);
            }
        }
    }
}

/// Distinct numbers have distinct decimal representations.
pub proof fn lemma_decimal_injective(a: nat, b: nat)
    requires
        decimal(a) == decimal(b),
    ensures
        a == b,
    decreases a,
{
    lemma_decimal_digits(a);
    lemma_decimal_digits(b);
    if a < 10 {
        assert(b < 10);
        assert(decimal(a)[0] == digit_char(a));
        assert(decimal(b)[0] == digit_char(b));
    } else {
        assert(b >= 10);
        let da = decimal(a);
        let db = decimal(b);
        assert(da.last() == digit_char(a % 10));
        assert(db.last() == digit_char(b % 10));
        assert(a % 10 == b % 10);
        assert(da.drop_last() == decimal(a / 10));
        assert(db.drop_last() == decimal(b / 10));
        lemma_decimal_injective(a / 10, b / 10);
    }
}

/// The name under which the device of mount number `id` is registered.
pub open spec fn device_name_of(id: u64) -> Seq<char> {
    seq!['e', 'x', 't', '4', 'd', 'e', 'v'] + decimal(id as nat)
}

/// The mount point of mount number `id`.
pub open spec fn mount_point_of(id: u64) -> Seq<char> {
    seq!['/', 'm', 'p'] + decimal(id as nat) + seq!['/']
}

/// The device name for mount number `id`: `ext4dev` followed by the number.
pub fn device_name(id: u64) -> (s: String)
    ensures
        s@ == device_name_of(id),
{
    let prefix = "ext4dev";
    proof {
        reveal_strlit("ext4dev");
    }
    let mut s = prefix.to_owned();
    let digits = decimal_string(id);
    s.append(digits.as_str());
    s
}

/// The mount point for mount number `id`: `/mp`, the number, and `/`.
pub fn mount_point(id: u64) -> (s: String)
    ensures
        s@ == mount_point_of(id),
{
    let prefix = "/mp";
    let slash = "/";
    proof {
        reveal_strlit("/mp");
        reveal_strlit("/");
    }
    let mut s = prefix.to_owned();
    let digits = decimal_string(id);
    s.append(digits.as_str());
    s.append(slash);
    s
}

/// Distinct mount numbers give distinct device names and distinct mount
/// points, so two mounts never share either.
pub proof fn lemma_names_unique(a: u64, b: u64)
    requires
        a != b,
    ensures
        device_name_of(a) != device_name_of(b),
        mount_point_of(a) != mount_point_of(b),
{
    let pa = seq!['e', 'x', 't', '4', 'd', 'e', 'v'];
    if device_name_of(a) == device_name_of(b) {
        assert(device_name_of(a).subrange(7, device_name_of(a).len() as int) =~= decimal(a as nat));
        assert(device_name_of(b).subrange(7, device_name_of(b).len() as int) =~= decimal(b as nat));
        lemma_decimal_injective(a as nat, b as nat);
    }
    if mount_point_of(a) == mount_point_of(b) {
        let ma = mount_point_of(a);
        let mb = mount_point_of(b);
        assert(ma.subrange(3, ma.len() - 1) =~= decimal(a as nat));
        assert(mb.subrange(3, mb.len() - 1) =~= decimal(b as nat));
        lemma_decimal_injective(a as nat, b as nat);
    }
}

/// A mount point begins and ends with `/` and holds no NUL character.
pub proof fn lemma_mount_point_shape(id: u64)
    ensures
        mount_point_of(id).len() >= 5,
        mount_point_of(id)[0] == '/',
        mount_point_of(id).last() == '/',
        !mount_point_of(id).contains('\0'),
        !device_name_of(id).contains('\0'),
{
    lemma_decimal_digits(id as nat);
    let d = decimal(id as nat);
    let m = mount_point_of(id);
    if m.contains('\0') {
        let i = choose|i: int| 0 <= i < m.len() && m[i] == '\0';
        if 3 <= i < m.len() - 1 {
            assert(m[i] == d[i - 3]);
        }
    }
    let n = device_name_of(id);
    if n.contains('\0') {
        let i = choose|i: int| 0 <= i < n.len() && n[i] == '\0';
        if 7 <= i {
            assert(n[i] == d[i - 7]);
        }
    }
}

/// A user path with its leading `/`, if it has one, removed.
pub open spec fn strip_root(p: Seq<char>) -> Seq<char> {
    if p.len() > 0 && p[0] == '/' {
        p.drop_first()
    } else {
        p
    }
}

/// The full lwext4 path of a user path under mount number `id`: the mount
/// point followed by the path without its leading `/`.
pub open spec fn full_path_of(id: u64, p: Seq<char>) -> Seq<char> {
    mount_point_of(id) + strip_root(p)
}

/// The result of composing the full path of `p` under mount number `id`:
/// the full path, or, when the path holds a NUL character (which no C
/// string can carry), an invalid-argument error naming the path.
pub open spec fn make_path_of(id: u64, p: Seq<char>) -> Result<Seq<char>, ErrorView> {
    if full_path_of(id, p).contains('\0') {
        Err(ErrorView::InvalidArgument(p))
    } else {
        Ok(full_path_of(id, p))
    }
}

/// A leading `/` makes no difference: `p` and `/p` name the same full path.
pub proof fn lemma_leading_slash_optional(id: u64, p: Seq<char>)
    requires
        !(p.len() > 0 && p[0] == '/'),
    ensures
        full_path_of(id, seq!['/'] + p) == full_path_of(id, p),
{
    assert((seq!['/'] + p).drop_first() =~= p);
}

/// A full path lies under its mount point, and the part after the mount
/// point is the user path without its leading `/`.
pub proof fn lemma_full_path_under_mount_point(id: u64, p: Seq<char>)
    ensures
        full_path_of(id, p).subrange(0, mount_point_of(id).len() as int) == mount_point_of(id),
        full_path_of(id, p).subrange(mount_point_of(id).len() as int, full_path_of(id, p).len() as int)
            == strip_root(p),
{
    let m = mount_point_of(id);
    let f = full_path_of(id, p);
    assert(f.subrange(0, m.len() as int) =~= m);
    assert(f.subrange(m.len() as int, f.len() as int) =~= strip_root(p));
}

/// Whether `s` holds a NUL character.
pub fn has_nul(s: &str) -> (r: bool)
    ensures
        r == s@.contains('\0'),
{
    let n = s.unicode_len();
    let mut i: usize = 0;
    while i < n
        invariant
            n == s@.len(),
            i <= n,
            forall|j: int| 0 <= j < i ==> s@[j] != '\0',
        decreases n - i,
    {
        if s.get_char(i) == '\0' {
            return true;
        }
        i = i + 1;
    }
    false
}

/// The path `p` under `mount_point`, or an invalid-argument error naming the
/// path if the composed path would hold a NUL character.
pub fn compose_path(id: Ghost<u64>, mount_point: &String, path: &str) -> (r: Result<
    String,
    Error,
>)
    requires
        mount_point@ == mount_point_of(id@),
    ensures
        match r {
            Ok(s) => make_path_of(id@, path@) == Ok::<Seq<char>, ErrorView>(s@),
            Err(e) => make_path_of(id@, path@) == Err::<Seq<char>, ErrorView>(e@),
        },
{
    let n = path.unicode_len();
    let rest: &str = if n > 0 && path.get_char(0) == '/' {
        path.substring_char(1, n)
    } else {
        path
    };
    assert(rest@ =~= strip_root(path@));
    let full_has_nul = has_nul(rest);
    proof {
        lemma_mount_point_shape(id@);
        let m = mount_point_of(id@);
        let f = full_path_of(id@, path@);
        if f.contains('\0') {
            let i = choose|i: int| 0 <= i < f.len() && f[i] == '\0';
            if i >= m.len() {
                assert(rest@[i - m.len()] == '\0');
            } else {
                assert(m[i] == '\0');
            }
        }
        if rest@.contains('\0') {
            let i = choose|i: int| 0 <= i < rest@.len() && rest@[i] == '\0';
            assert(f[m.len() + i] == '\0');
        }
    }
    if full_has_nul {
        Err(Error::InvalidArgument(path.to_owned()))
    } else {
        let mut s = mount_point.clone();
        s.append(rest);
        Ok(s)
    }
}

} // verus!
