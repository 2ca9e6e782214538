use vstd::prelude::*;

verus! {

/// The placeholder that stands for the record's `name` field.
pub open spec fn name_slot() -> Seq<char> {
    seq!['{', 'n', 'a', 'm', 'e', '}']
}

/// The placeholder that stands for the record's `age` field.
pub open spec fn age_slot() -> Seq<char> {
    seq!['{', 'a', 'g', 'e', '}']
}

pub open spec fn starts_with(s: Seq<char>, prefix: Seq<char>) -> bool {
    prefix.len() <= s.len() && s.subrange(0, prefix.len() as int) == prefix
}

/// The template `t` with every `{name}` replaced by `name` and every `{age}`
/// by `age`, scanning left to right; all other characters are kept.
pub open spec fn fill(t: Seq<char>, name: Seq<char>, age: Seq<char>) -> Seq<char>
    decreases t.len(),
{
    if t.len() == 0 {
        seq![]
    } else if starts_with(t, name_slot()) {
        name + fill(t.skip(6), name, age)
    } else if starts_with(t, age_slot()) {
        age + fill(t.skip(5), name, age)
    } else {
        seq![t[0]] + fill(t.skip(1), name, age)
    }
}

pub open spec fn digit_char(d: nat) -> char {
    if d == 0 { '0' }
    else if d == 1 { '1' }
    else if d == 2 { '2' }
    else if d == 3 { '3' }
    else if d == 4 { '4' }
    else if d == 5 { '5' }
    else if d == 6 { '6' }
    else if d == 7 { '7' }
    else if d == 8 { '8' }
    else { '9' }
}

/// The decimal digits of `n`, most significant first, without leading zeros.
pub open spec fn decimal(n: nat) -> Seq<char>
    decreases n,
{
    if n < 10 {
        seq![digit_char(n)]
    } else {
        decimal(n / 10) + seq![digit_char(n % 10)]
    }
}

/// The text that the greet capability prints for a record.
pub open spec fn greeting(t: Seq<char>, name: Seq<char>, age: nat) -> Seq<char> {
    fill(t, name, decimal(age))
}

/// The template used when no `content` is configured.
pub const DEFAULT_TEMPLATE: &'static str = "Hello, my name is {name} and I am {age} years old.";

pub open spec fn hello_part() -> Seq<char> {
    seq!['H', 'e', 'l', 'l', 'o', ',', ' ', 'm', 'y', ' ', 'n', 'a', 'm', 'e', ' ', 'i', 's', ' ']
}

pub open spec fn and_part() -> Seq<char> {
    seq![' ', 'a', 'n', 'd', ' ', 'I', ' ', 'a', 'm', ' ']
}

pub open spec fn years_part() -> Seq<char> {
    seq![' ', 'y', 'e', 'a', 'r', 's', ' ', 'o', 'l', 'd', '.']
}

pub open spec fn default_template() -> Seq<char> {
    hello_part() + name_slot() + and_part() + age_slot() + years_part()
}

/// The default template as an owned string.
pub fn default_template_text() -> (r: String)
    ensures
        r@ == default_template(),
{
    proof {
        reveal_strlit("Hello, my name is {name} and I am {age} years old.");
    }
    let r = String::from_str(DEFAULT_TEMPLATE);
    assert(r@ =~= default_template());
    r
}

fn digit_text(d: u32) -> (r: &'static str)
    requires
        d < 10,
    ensures
        r@ == seq![digit_char(d as nat)],
{
    proof {
        reveal_strlit("0");
        reveal_strlit("1");
        reveal_strlit("2");
        reveal_strlit("3");
        reveal_strlit("4");
        reveal_strlit("5");
        reveal_strlit("6");
        reveal_strlit("7");
        reveal_strlit("8");
        reveal_strlit("9");
    }
    let r = if d == 0 { "0" }
    else if d == 1 { "1" }
    else if d == 2 { "2" }
    else if d == 3 { "3" }
    else if d == 4 { "4" }
    else if d == 5 { "5" }
    else if d == 6 { "6" }
    else if d == 7 { "7" }
    else if d == 8 { "8" }
    else { "9" };
    assert(r@ =~= seq![digit_char(d as nat)]);
    r
}

/// Writes `n` in decimal.
pub fn decimal_text(n: u32) -> (r: String)
    ensures
        r@ == decimal(n as nat),
    decreases n,
{
    if n < 10 {
        String::from_str(digit_text(n))
    } else {
        let mut r = decimal_text(n / 10);
        r.append(digit_text(n % 10));
        r
    }
}

/// Whether two texts are the same characters.
pub fn same_text(a: &str, b: &str) -> (r: bool)
    ensures
        r == (a@ == b@),
{
    let n = a.unicode_len();
    if n != b.unicode_len() {
        return false;
    }
    let r = slot_at(a, n, 0, b);
    assert(a@.skip(0) =~= a@);
    proof {
        if r {
            assert(a@ =~= a@.subrange(0, n as int));
        }
    }
    r
}

/// Whether `t`, from character `i` on, begins with `slot`.
fn slot_at(t: &str, n: usize, i: usize, slot: &str) -> (r: bool)
    requires
        n == t@.len(),
        i <= n,
    ensures
        r == starts_with(t@.skip(i as int), slot@),
{
    let k = slot.unicode_len();
    if k > n - i {
        return false;
    }
    let mut j: usize = 0;
    while j < k
        invariant
            k == slot@.len(),
            n == t@.len(),
            i + k <= n,
            j <= k,
            forall|m: int| 0 <= m < j ==> t@[i + m] == slot@[m],
        decreases k - j,
    {
        if t.get_char(i + j) != slot.get_char(j) {
            assert(t@.skip(i as int).subrange(0, k as int)[j as int] != slot@[j as int]);
            return false;
        }
        j = j + 1;
    }
    assert(t@.skip(i as int).subrange(0, k as int) =~= slot@);
    true
}

proof fn lemma_skip_skip(t: Seq<char>, i: int, k: int)
    requires
        0 <= i,
        0 <= k,
        i + k <= t.len(),
    ensures
        t.skip(i).skip(k) == t.skip(i + k),
{
    assert(t.skip(i).skip(k) =~= t.skip(i + k));
}

/// Fills `template`: every `{name}` becomes `name` and every `{age}` becomes
/// `age`, written as text already.
pub fn fill_text(template: &str, name: &str, age: &str) -> (r: String)
    ensures
        r@ == fill(template@, name@, age@),
{
    proof {
        reveal_strlit("{name}");
        reveal_strlit("{age}");
    }
    let name_pat = "{name}";
    let age_pat = "{age}";
    assert(name_pat@ =~= name_slot());
    assert(age_pat@ =~= age_slot());
    let n = template.unicode_len();
    let mut out = String::new();
    let mut i: usize = 0;
    assert(template@.skip(0) =~= template@);
    while i < n
        invariant
            n == template@.len(),
            i <= n,
            name_pat@ == name_slot(),
            age_pat@ == age_slot(),
            out@ + fill(template@.skip(i as int), name@, age@) == fill(template@, name@, age@),
        decreases n - i,
    {
        let ghost rest = template@.skip(i as int);
        if slot_at(template, n, i, name_pat) {
            out.append(name);
            proof {
                lemma_skip_skip(template@, i as int, 6);
                assert(out@ + fill(rest.skip(6), name@, age@) == fill(template@, name@, age@));
            }
            i = i + 6;
        } else if slot_at(template, n, i, age_pat) {
            out.append(age);
            proof {
                lemma_skip_skip(template@, i as int, 5);
            }
            i = i + 5;
        } else {
            let c = template.substring_char(i, i + 1);
            assert(c@ =~= seq![rest[0]]);
            out.append(c);
            proof {
                lemma_skip_skip(template@, i as int, 1);
                assert(out@ + fill(rest.skip(1), name@, age@) =~= fill(template@, name@, age@));
            }
            i = i + 1;
        }
    }
    assert(template@.skip(n as int).len() == 0);
    assert(out@ =~= out@ + fill(template@.skip(n as int), name@, age@));
    out
}

/// The line that the greet capability prints for a record with this `name`
/// and `age`, following `template`.
pub fn render(template: &str, name: &str, age: u32) -> (r: String)
    ensures
        r@ == greeting(template@, name@, age as nat),
{
    let digits = decimal_text(age);
    fill_text(template, name, digits.as_str())
}

/// The line printed with the default template.
pub fn default_greeting(name: &str, age: u32) -> (r: String)
    ensures
        r@ == greeting(default_template(), name@, age as nat),
{
    let t = default_template_text();
    render(t.as_str(), name, age)
}

proof fn lemma_fill_plain(p: Seq<char>, rest: Seq<char>, name: Seq<char>, age: Seq<char>)
    requires
        forall|i: int| 0 <= i < p.len() ==> p[i] != '{',
    ensures
        fill(p + rest, name, age) == p + fill(rest, name, age),
    decreases p.len(),
{
    if p.len() > 0 {
        let s = p + rest;
        assert(!starts_with(s, name_slot())) by {
            if starts_with(s, name_slot()) {
                assert(s.subrange(0, 6)[0] == name_slot()[0]);
            }
        }
        assert(!starts_with(s, age_slot())) by {
            if starts_with(s, age_slot()) {
                assert(s.subrange(0, 5)[0] == age_slot()[0]);
            }
        }
        assert(s.skip(1) =~= p.skip(1) + rest);
        lemma_fill_plain(p.skip(1), rest, name, age);
        assert(seq![p[0]] + p.skip(1) =~= p);
    } else {
        assert(p + rest =~= rest);
    }
}

proof fn lemma_fill_name(rest: Seq<char>, name: Seq<char>, age: Seq<char>)
    ensures
        fill(name_slot() + rest, name, age) == name + fill(rest, name, age),
{
    let s = name_slot() + rest;
    assert(s.subrange(0, 6) =~= name_slot());
    assert(s.skip(6) =~= rest);
}

proof fn lemma_fill_age(rest: Seq<char>, name: Seq<char>, age: Seq<char>)
    ensures
        fill(age_slot() + rest, name, age) == age + fill(rest, name, age),
{
    let s = age_slot() + rest;
    assert(!starts_with(s, name_slot())) by {
        if starts_with(s, name_slot()) {
            assert(s.subrange(0, 6)[1] == name_slot()[1]);
        }
    }
    assert(s.subrange(0, 5) =~= age_slot());
    assert(s.skip(5) =~= rest);
}

/// With the default template the greeting reads
/// "Hello, my name is <name> and I am <age> years old.", the name inserted
/// as it is and the age in decimal.
pub proof fn default_greeting_wording(name: Seq<char>, age: nat)
    ensures
        greeting(default_template(), name, age) == hello_part() + name + and_part() + decimal(age)
            + years_part(),
{
    let a = decimal(age);
    let e: Seq<char> = seq![];
    assert(fill(e, name, a) == e);
    lemma_fill_plain(years_part(), e, name, a);
    assert(years_part() + e =~= years_part());
    lemma_fill_age(years_part(), name, a);
    lemma_fill_plain(and_part(), age_slot() + years_part(), name, a);
    lemma_fill_name(and_part() + age_slot() + years_part(), name, a);
    lemma_fill_plain(hello_part(), name_slot() + and_part() + age_slot() + years_part(), name, a);
    assert(default_template() =~= hello_part() + (name_slot() + (and_part() + (age_slot()
        + years_part()))));
    assert(name_slot() + (and_part() + (age_slot() + years_part())) =~= name_slot() + and_part()
        + age_slot() + years_part());
    assert(and_part() + (age_slot() + years_part()) =~= and_part() + age_slot() + years_part());
    assert(hello_part() + (name + (and_part() + (a + years_part()))) =~= hello_part() + name
        + and_part() + a + years_part());
}

} // verus!
