//! Stable names for compiled layers and their stored parameters.
//!
//! Each compiled layer receives the name `<kind>_<index>`; a dense layer at
//! index `i` stores its parameters under `kernel_<i>` and `bias_<i>`.  The
//! decimal rendering is verified against [`dec_digits`], and distinct layer
//! indices are proved to yield distinct parameter names, which is what makes
//! compilation against a fresh store collision-free.
use vstd::prelude::*;
use vstd::string::StrSliceExecFns;
use vstd::string::StringExecFns;

verus! {

/// The character for one decimal digit.
pub closed spec fn digit_char(d: nat) -> char {
    if d == 0 {
        '0'
    } else if d == 1 {
        '1'
    } else if d == 2 {
        '2'
    } else if d == 3 {
        '3'
    } else if d == 4 {
        '4'
    } else if d == 5 {
        '5'
    } else if d == 6 {
        '6'
    } else if d == 7 {
        '7'
    } else if d == 8 {
        '8'
    } else {
        '9'
    }
}

/// The decimal rendering of `n`, most significant digit first, without
/// leading zeros (the rendering of zero is "0").
pub closed spec fn dec_digits(n: nat) -> Seq<char>
    decreases n,
{
    if n < 10 {
        seq![digit_char(n)]
    } else {
        dec_digits(n / 10) + seq![digit_char(n % 10)]
    }
}

/// A decimal rendering has at least one character.
pub proof fn lemma_dec_digits_len(n: nat)
    ensures
        dec_digits(n).len() >= 1,
    decreases n,
{
    if n >= 10 {
        lemma_dec_digits_len(n / 10);
    }
}

/// Two distinct digits render as distinct characters.
proof fn lemma_digit_char_injective(a: nat, b: nat)
    requires
        a < 10,
        b < 10,
        digit_char(a) == digit_char(b),
    ensures
        a == b,
{
}

/// Distinct numbers have distinct decimal renderings.
pub proof fn lemma_dec_digits_injective(a: nat, b: nat)
    requires
        dec_digits(a) == dec_digits(b),
    ensures
        a == b,
    decreases a + b,
{
    lemma_dec_digits_len(a);
    lemma_dec_digits_len(b);
    if a < 10 && b < 10 {
        assert(dec_digits(a) == seq![digit_char(a)]);
        assert(dec_digits(b) == seq![digit_char(b)]);
        assert(seq![digit_char(a)][0] == digit_char(a));
        assert(seq![digit_char(b)][0] == digit_char(b));
        lemma_digit_char_injective(a, b);
    } else if a < 10 {
        lemma_dec_digits_len(b / 10);
        assert(dec_digits(b).len() >= 2);
    } else if b < 10 {
        lemma_dec_digits_len(a / 10);
        assert(dec_digits(a).len() >= 2);
    } else {
        let la = dec_digits(a).len();
        assert(dec_digits(a).last() == digit_char(a % 10));
        assert(dec_digits(b).last() == digit_char(b % 10));
        lemma_digit_char_injective(a % 10, b % 10);
        assert(dec_digits(a / 10) =~= dec_digits(a).subrange(0, la - 1));
        assert(dec_digits(b / 10) =~= dec_digits(b).subrange(0, la - 1));
        lemma_dec_digits_injective(a / 10, b / 10);
    }
}

/// Appending to a common prefix is cancellable.
pub proof fn lemma_append_left_cancel(p: Seq<char>, a: Seq<char>, b: Seq<char>)
    requires
        p + a == p + b,
    ensures
        a == b,
{
    assert((p + a).len() == p.len() + a.len());
    assert((p + b).len() == p.len() + b.len());
    assert(a.len() == b.len());
    assert forall|k: int| 0 <= k < a.len() implies a[k] == b[k] by {
        assert(0 <= p.len() + k < (p + a).len());
        assert((p + a)[p.len() + k] == a[k]);
        assert((p + b)[p.len() + k] == b[k]);
    }
    assert(a =~= b);
}

/// The single-character string for a decimal digit.
fn digit_str(d: usize) -> (r: &'static str)
    requires
        d < 10,
    ensures
        r@ == seq![digit_char(d as nat)],
{
    let r: &'static str = match d {
        0 => "0",
        1 => "1",
        2 => "2",
        3 => "3",
        4 => "4",
        5 => "5",
        6 => "6",
        7 => "7",
        8 => "8",
        _ => "9",
    };
    proof {
        reveal_strlit("0");
        reveal_strlit("1");
        reveal_strlit("2");
        reveal_strlit("3");
        reveal_strlit("4");
        reveal_strlit("5");
        reveal_strlit("6");
        reveal_strlit("7");
        reveal_strlit("8");
        reveal_strlit("9");
        assert(r@ =~= seq![digit_char(d as nat)]);
    }
    r
}

/// Renders `n` in decimal, verified against [`dec_digits`].
pub fn usize_to_string(n: usize) -> (s: String)
    ensures
        s@ == dec_digits(n as nat),
{
    let mut s: String = String::from_str(digit_str(n % 10));
    let mut m: usize = n / 10;
    proof {
        if m == 0 {
            assert(s@ =~= dec_digits(n as nat));
        } else {
            assert(dec_digits(n as nat) =~= dec_digits(m as nat) + s@);
        }
    }
    while m > 0
        invariant
            m == 0 ==> s@ == dec_digits(n as nat),
            m > 0 ==> dec_digits(n as nat) == dec_digits(m as nat) + s@,
        decreases m,
    {
        let d = m % 10;
        let prev = s;
        s = String::from_str(digit_str(d)).concat(prev.as_str());
        proof {
            assert(s@ =~= seq![digit_char(d as nat)] + prev@);
            if m < 10 {
                assert(dec_digits(m as nat) =~= seq![digit_char(d as nat)]);
                assert(dec_digits(n as nat) =~= s@);
            } else {
                assert(dec_digits(m as nat) =~= dec_digits(
                    (m / 10) as nat,
                ) + seq![digit_char(d as nat)]);
                assert(dec_digits(n as nat) =~= dec_digits((m / 10) as nat) + s@);
            }
        }
        m = m / 10;
    }
    s
}

/// The store name of the kernel parameter of the dense layer at `i`.
pub open spec fn kernel_name_spec(i: nat) -> Seq<char> {
    "kernel_"@ + dec_digits(i)
}

/// The store name of the bias parameter of the dense layer at `i`.
pub open spec fn bias_name_spec(i: nat) -> Seq<char> {
    "bias_"@ + dec_digits(i)
}

/// Builds the kernel parameter name for layer index `i`.
pub fn kernel_name(i: usize) -> (s: String)
    ensures
        s@ == kernel_name_spec(i as nat),
{
    String::from_str("kernel_").concat(usize_to_string(i).as_str())
}

/// Builds the bias parameter name for layer index `i`.
pub fn bias_name(i: usize) -> (s: String)
    ensures
        s@ == bias_name_spec(i as nat),
{
    String::from_str("bias_").concat(usize_to_string(i).as_str())
}

/// The display name of the input layer at `i`.
pub open spec fn input_name_spec(i: nat) -> Seq<char> {
    "input_"@ + dec_digits(i)
}

/// The display name of the dense layer at `i`.
pub open spec fn dense_name_spec(i: nat) -> Seq<char> {
    "dense_"@ + dec_digits(i)
}

/// The display name of the activation layer at `i`.
pub open spec fn activation_name_spec(i: nat) -> Seq<char> {
    "activation_"@ + dec_digits(i)
}

/// Builds the display name for the input layer at `i`.
pub fn input_name(i: usize) -> (s: String)
    ensures
        s@ == input_name_spec(i as nat),
{
    String::from_str("input_").concat(usize_to_string(i).as_str())
}

/// Builds the display name for the dense layer at `i`.
pub fn dense_name(i: usize) -> (s: String)
    ensures
        s@ == dense_name_spec(i as nat),
{
    String::from_str("dense_").concat(usize_to_string(i).as_str())
}

/// Builds the display name for the activation layer at `i`.
pub fn activation_name(i: usize) -> (s: String)
    ensures
        s@ == activation_name_spec(i as nat),
{
    String::from_str("activation_").concat(usize_to_string(i).as_str())
}

/// Distinct layer indices give distinct kernel names.
pub proof fn lemma_kernel_names_distinct(i: nat, j: nat)
    requires
        i != j,
    ensures
        kernel_name_spec(i) != kernel_name_spec(j),
{
    if kernel_name_spec(i) == kernel_name_spec(j) {
        lemma_append_left_cancel("kernel_"@, dec_digits(i), dec_digits(j));
        lemma_dec_digits_injective(i, j);
    }
}

/// Distinct layer indices give distinct bias names.
pub proof fn lemma_bias_names_distinct(i: nat, j: nat)
    requires
        i != j,
    ensures
        bias_name_spec(i) != bias_name_spec(j),
{
    if bias_name_spec(i) == bias_name_spec(j) {
        lemma_append_left_cancel("bias_"@, dec_digits(i), dec_digits(j));
        lemma_dec_digits_injective(i, j);
    }
}

/// A kernel name is never a bias name: the first characters differ.
pub proof fn lemma_kernel_bias_distinct(i: nat, j: nat)
    ensures
        kernel_name_spec(i) != bias_name_spec(j),
{
    reveal_strlit("kernel_");
    reveal_strlit("bias_");
    if kernel_name_spec(i) == bias_name_spec(j) {
        assert(kernel_name_spec(i)[0] == 'k');
        assert(bias_name_spec(j)[0] == 'b');
    }
}

/// Equality of strings by character comparison.
pub fn str_eq(a: &str, b: &str) -> (r: bool)
    ensures
        r == (a@ == b@),
{
    let la = a.unicode_len();
    let lb = b.unicode_len();
    if la != lb {
        proof {
            assert(a@.len() != b@.len());
        }
        return false;
    }
    let mut i: usize = 0;
    while i < la
        invariant
            la == a@.len(),
            la == b@.len(),
            i <= la,
            forall|k: int| 0 <= k < i ==> a@[k] == b@[k],
        decreases la - i,
    {
        if a.get_char(i) != b.get_char(i) {
            return false;
        }
        i = i + 1;
    }
    proof {
        assert(a@ =~= b@);
    }
    true
}

} // verus!
