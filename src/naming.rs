use vstd::prelude::*;

verus! {

/// The byte `/`, the one separator a shared-memory name may hold, in front.
pub const SEPARATOR: u8 = 47;

/// The byte `-` between a title and an ordinal.
pub const DASH: u8 = 45;

/// `s` with every separator byte taken out.
pub open spec fn strip_separators(s: Seq<u8>) -> Seq<u8>
    decreases s.len(),
{
    if s.len() == 0 {
        Seq::empty()
    } else if s.last() == SEPARATOR {
        strip_separators(s.drop_last())
    } else {
        strip_separators(s.drop_last()).push(s.last())
    }
}

/// The ASCII decimal digits of `n`, most significant first, without
/// leading zeros.
pub open spec fn decimal(n: nat) -> Seq<u8>
    decreases n,
{
    if n < 10 {
        seq![(48 + n) as u8]
    } else {
        decimal(n / 10).push((48 + n % 10) as u8)
    }
}

/// The shared-memory name of the buffer with ordinal `index` of a pool made
/// for `title`: a separator, the title without separators, a dash and the
/// ordinal in decimal.
pub open spec fn shm_name_of(title: Seq<u8>, index: nat) -> Seq<u8> {
    seq![SEPARATOR] + strip_separators(title) + seq![DASH] + decimal(index)
}

proof fn lemma_strip_has_no_separator(s: Seq<u8>)
    ensures
        forall|k: int| 0 <= k < strip_separators(s).len() ==> strip_separators(s)[k] != SEPARATOR,
    decreases s.len(),
{
    if s.len() > 0 {
        lemma_strip_has_no_separator(s.drop_last());
        let rest = strip_separators(s.drop_last());
        if s.last() != SEPARATOR {
            assert forall|k: int| 0 <= k < rest.len() + 1 implies rest.push(s.last())[k]
                != SEPARATOR by {
                if k < rest.len() {
                    assert(rest.push(s.last())[k] == rest[k]);
                }
            }
        }
    }
}

proof fn lemma_decimal_digits(n: nat)
    ensures
        decimal(n).len() >= 1,
        n >= 10 ==> decimal(n).len() >= 2,
        forall|k: int| 0 <= k < decimal(n).len() ==> 48 <= #[trigger] decimal(n)[k] <= 57,
    decreases n,
{
    if n >= 10 {
        lemma_decimal_digits(n / 10);
    }
}

/// Different numbers have different decimal forms.
pub proof fn lemma_decimal_injective(a: nat, b: nat)
    requires
        decimal(a) == decimal(b),
    ensures
        a == b,
    decreases a,
{
    lemma_decimal_digits(a);
    lemma_decimal_digits(b);
    if a < 10 || b < 10 {
        assert(decimal(a).len() == 1 && decimal(b).len() == 1);
        assert(decimal(a)[0] == decimal(b)[0]);
        assert(a < 10 && b < 10);
        assert((48 + a) as u8 == 48 + a);
        assert((48 + b) as u8 == 48 + b);
    } else {
        assert(decimal(a).last() == decimal(b).last());
        assert(decimal(a).last() == (48 + a % 10) as u8);
        assert(decimal(b).last() == (48 + b % 10) as u8);
        assert((48 + a % 10) as u8 == 48 + a % 10);
        assert((48 + b % 10) as u8 == 48 + b % 10);
        assert(decimal(a / 10) == decimal(a).drop_last());
        assert(decimal(b / 10) == decimal(b).drop_last());
        lemma_decimal_injective(a / 10, b / 10);
    }
}

/// Names of a pool's buffers never hold a separator past the leading one,
/// and two ordinals never share a name.
pub proof fn lemma_shm_names_distinct(title: Seq<u8>, i: nat, j: nat)
    ensures
        shm_name_of(title, i)[0] == SEPARATOR,
        forall|k: int|
            1 <= k < shm_name_of(title, i).len() ==> #[trigger] shm_name_of(title, i)[k]
                != SEPARATOR,
        shm_name_of(title, i) == shm_name_of(title, j) ==> i == j,
{
    lemma_strip_has_no_separator(title);
    lemma_decimal_digits(i);
    let prefix = seq![SEPARATOR] + strip_separators(title) + seq![DASH];
    let name = shm_name_of(title, i);
    assert forall|k: int| 1 <= k < name.len() implies #[trigger] name[k] != SEPARATOR by {
        if k < prefix.len() - 1 {
            assert(name[k] == strip_separators(title)[k - 1]);
        } else if k >= prefix.len() {
            assert(name[k] == decimal(i)[k - prefix.len()]);
        }
    }
    if shm_name_of(title, i) == shm_name_of(title, j) {
        assert(decimal(i) =~= shm_name_of(title, i).subrange(prefix.len() as int, shm_name_of(title, i).len() as int));
        assert(decimal(j) =~= shm_name_of(title, j).subrange(prefix.len() as int, shm_name_of(title, j).len() as int));
        lemma_decimal_injective(i, j);
    }
}

/// Appends the decimal digits of `n`.
fn push_decimal(out: &mut Vec<u8>, n: usize)
    ensures
        final(out)@ == old(out)@ + decimal(n as nat),
    decreases n,
{
    if n >= 10 {
        push_decimal(out, n / 10);
    }
    let digit: u8 = (n % 10) as u8;
    out.push(48 + digit);
    assert(final(out)@ =~= old(out)@ + decimal(n as nat));
}

/// Builds the shared-memory name of the buffer with ordinal `index` of a
/// pool made for `title`.
pub fn shm_name(title: &[u8], index: usize) -> (r: Vec<u8>)
    ensures
        r@ == shm_name_of(title@, index as nat),
{
    let mut out: Vec<u8> = Vec::new();
    out.push(SEPARATOR);
    let mut i: usize = 0;
    while i < title.len()
        invariant
            i <= title@.len(),
            out@ == seq![SEPARATOR] + strip_separators(title@.subrange(0, i as int)),
        decreases title@.len() - i,
    {
        assert(title@.subrange(0, i + 1).drop_last() =~= title@.subrange(0, i as int));
        if title[i] != SEPARATOR {
            out.push(title[i]);
        }
        i = i + 1;
        assert(out@ =~= seq![SEPARATOR] + strip_separators(title@.subrange(0, i as int)));
    }
    assert(title@.subrange(0, title@.len() as int) =~= title@);
    out.push(DASH);
    push_decimal(&mut out, index);
    assert(out@ =~= shm_name_of(title@, index as nat));
    out
}

} // verus!
