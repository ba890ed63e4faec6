//! Plagiarism fingerprints: the token texts and tag histogram of a parsed
//! submission with its content hash, and the similarity of two fingerprints.
use vstd::prelude::*;
use crate::syntax::{extract_tokens, tag_index, token_tag, token_text, tree_tokens, SyntaxTree, Tag, Token, TAG_COUNT};

verus! {

broadcast use vstd::string::group_string_axioms;

/// How many tokens of `toks` count under tag `t`.
pub open spec fn tag_count(toks: Seq<Token>, t: Tag) -> nat
    decreases toks.len(),
{
    if toks.len() == 0 {
        0
    } else {
        tag_count(toks.drop_last(), t) + if token_tag(toks.last()) == t { 1nat } else { 0nat }
    }
}

proof fn lemma_tag_count_bound(toks: Seq<Token>, t: Tag)
    ensures
        tag_count(toks, t) <= toks.len(),
    decreases toks.len(),
{
    if toks.len() > 0 {
        lemma_tag_count_bound(toks.drop_last(), t);
    }
}

/// How often each tag occurs, one count per tag in histogram order.
///
/// The tags form a fixed vocabulary, so the counts are held by tag position
/// rather than in a `HashMap` keyed by the tag's name: Verus proves nothing
/// about a `HashMap` with `String` keys, and a tag that does not occur simply
/// counts zero, as a missing key did.
pub struct FeatureHistogram {
    counts: Vec<u64>,
}

impl View for FeatureHistogram {
    type V = Seq<u64>;

    closed spec fn view(&self) -> Seq<u64> {
        self.counts@
    }
}

impl FeatureHistogram {
    /// The counts of the tags of `tokens`.
    pub fn from_tokens(tokens: &Vec<Token>) -> (h: FeatureHistogram)
        ensures
            h@.len() == TAG_COUNT,
            forall|t: Tag| #[trigger] h@[tag_index(t)] == tag_count(tokens@, t),
    {
        let mut counts: Vec<u64> = Vec::new();
        let mut k: usize = 0;
        while k < TAG_COUNT
            invariant
                k <= TAG_COUNT,
                counts@.len() == k,
                forall|j: int| 0 <= j < k ==> counts@[j] == 0,
            decreases TAG_COUNT - k,
        {
            counts.push(0);
            k = k + 1;
        }
        let mut i: usize = 0;
        assert(tokens@.take(0) =~= Seq::<Token>::empty());
        while i < tokens.len()
            invariant
                i <= tokens@.len(),
                counts@.len() == TAG_COUNT,
                forall|t: Tag| #[trigger] counts@[tag_index(t)] == tag_count(tokens@.take(i as int), t),
            decreases tokens.len() - i,
        {
            let ghost prefix = tokens@.take(i as int);
            assert(tokens@.take(i + 1).drop_last() =~= prefix);
            assert(tokens@.take(i + 1).last() == tokens@[i as int]);
            let g = match &tokens[i] {
                Token::Tag(g) => *g,
                Token::Ident(_) => Tag::Ident,
            };
            let idx = g.index();
            proof {
                lemma_tag_count_bound(prefix, g);
            }
            let c = counts[idx];
            counts.set(idx, c + 1);
            assert forall|t: Tag| #[trigger] counts@[tag_index(t)] == tag_count(tokens@.take(i + 1), t) by {
                if t != g {
                    assert(tag_index(t) != tag_index(g));
                }
            }
            i = i + 1;
        }
        assert(tokens@.take(tokens@.len() as int) =~= tokens@);
        FeatureHistogram { counts }
    }

    /// The count of tag `t`.
    pub fn count(&self, t: Tag) -> (c: u64)
        requires
            self@.len() == TAG_COUNT,
        ensures
            c == self@[tag_index(t)],
    {
        self.counts[t.index()]
    }

    /// The count at histogram position `i`.
    pub fn count_at(&self, i: usize) -> (c: u64)
        requires
            i < self@.len(),
        ensures
            c == self@[i as int],
    {
        self.counts[i]
    }
}

/// The text of one token.
pub fn token_string(t: &Token) -> (s: String)
    ensures
        s@ == token_text(*t),
{
    match t {
        Token::Tag(g) => String::from_str(g.name()),
        Token::Ident(name) => {
            let mut s = String::from_str("ident_");
            s.append(name.as_str());
            s
        },
    }
}

/// The name of the digest of `code` that `md5_hex` returns.
pub uninterp spec fn md5_hex_of(code: Seq<char>) -> Seq<char>;

/// Relies on `md5::compute` and the lowercase-hex form of its digest: the
/// MD5 digest of the text's bytes, two hex digits per byte.
#[verifier::external_body]
fn md5_hex(code: &str) -> (r: String)
    ensures
        r@ == md5_hex_of(code@),
        r@.len() == 32,
{
    format!("{:x}", md5::compute(code))
}

/// A submission's fingerprint.
pub struct CodeFingerprint {
    /// MD5 of the source text, in hex.
    pub ast_hash: String,
    /// The texts of the tokens, in source order.
    pub token_sequence: Vec<String>,
    pub structural_features: FeatureHistogram,
}

/// `fp` is the fingerprint of source text `code` whose token stream is `toks`.
pub open spec fn is_fingerprint_of(fp: CodeFingerprint, code: Seq<char>, toks: Seq<Token>) -> bool {
    &&& fp.ast_hash@ == md5_hex_of(code)
    &&& fp.ast_hash@.len() == 32
    &&& fp.token_sequence@.len() == toks.len()
    &&& forall|i: int| 0 <= i < toks.len() ==> #[trigger] fp.token_sequence@[i]@ == token_text(toks[i])
    &&& fp.structural_features@.len() == TAG_COUNT
    &&& forall|t: Tag| #[trigger] fp.structural_features@[tag_index(t)] == tag_count(toks, t)
}

/// The fingerprint of source text `code`, parsed as `tree`.
pub fn fingerprint_of(code: &str, tree: &SyntaxTree) -> (fp: CodeFingerprint)
    ensures
        is_fingerprint_of(fp, code@, tree_tokens(*tree)),
{
    let tokens = extract_tokens(tree);
    let structural_features = FeatureHistogram::from_tokens(&tokens);
    let mut token_sequence: Vec<String> = Vec::new();
    let mut i: usize = 0;
    while i < tokens.len()
        invariant
            i <= tokens@.len(),
            token_sequence@.len() == i,
            forall|j: int| 0 <= j < i ==> #[trigger] token_sequence@[j]@ == token_text(tokens@[j]),
        decreases tokens.len() - i,
    {
        token_sequence.push(token_string(&tokens[i]));
        i = i + 1;
    }
    CodeFingerprint { ast_hash: md5_hex(code), token_sequence, structural_features }
}

/// Similarities are fixed-point numbers: this value stands for 1.0.
pub const SIMILARITY_SCALE: u64 = 1_000_000;

/// Similarity of one tag's counts, `1 - |c1 - c2| / (c1 + c2)` scaled and
/// rounded down; zero when the tag occurs in neither.
pub open spec fn tag_similarity(c1: int, c2: int) -> int {
    if c1 + c2 <= 0 {
        0
    } else {
        (2 * SIMILARITY_SCALE * (if c1 <= c2 { c1 } else { c2 })) / (c1 + c2)
    }
}

/// Sum of the tag similarities over the first `n` histogram positions.
pub open spec fn similarity_sum(h1: Seq<u64>, h2: Seq<u64>, n: int) -> int
    decreases n,
{
    if n <= 0 {
        0
    } else {
        similarity_sum(h1, h2, n - 1) + tag_similarity(h1[n - 1] as int, h2[n - 1] as int)
    }
}

/// How many of the first `n` positions have a tag that occurs in either.
pub open spec fn present_tags(h1: Seq<u64>, h2: Seq<u64>, n: int) -> int
    decreases n,
{
    if n <= 0 {
        0
    } else {
        present_tags(h1, h2, n - 1) + if h1[n - 1] + h2[n - 1] > 0 { 1int } else { 0int }
    }
}

/// The average tag similarity over the tags that occur in either histogram,
/// rounded down; zero when no tag occurs.
pub open spec fn structural_similarity(h1: Seq<u64>, h2: Seq<u64>) -> int {
    let c = present_tags(h1, h2, TAG_COUNT as int);
    if c == 0 {
        0
    } else {
        similarity_sum(h1, h2, TAG_COUNT as int) / c
    }
}

/// `0.4 * hash + 0.4 * tokens + 0.2 * structure`, rounded down, where the
/// hash part is full when the content hashes are equal.
pub open spec fn combined_similarity(hash_equal: bool, token_sim: int, struct_sim: int) -> int {
    (4 * (if hash_equal { SIMILARITY_SCALE as int } else { 0 }) + 4 * token_sim + 2 * struct_sim) / 10
}

/// The similarity of two fingerprints whose token texts have similarity `token_sim`.
pub open spec fn similarity_of(fp1: CodeFingerprint, fp2: CodeFingerprint, token_sim: int) -> int {
    combined_similarity(
        fp1.ast_hash@ == fp2.ast_hash@,
        token_sim,
        structural_similarity(fp1.structural_features@, fp2.structural_features@),
    )
}

proof fn lemma_tag_similarity_bound(c1: int, c2: int)
    requires
        c1 >= 0,
        c2 >= 0,
    ensures
        0 <= tag_similarity(c1, c2) <= SIMILARITY_SCALE,
{
    if c1 + c2 > 0 {
        let m = if c1 <= c2 { c1 } else { c2 };
        assert(2 * SIMILARITY_SCALE * m <= SIMILARITY_SCALE * (c1 + c2)) by (nonlinear_arith)
            requires
                2 * m <= c1 + c2,
                m >= 0,
        ;
        vstd::arithmetic::div_mod::lemma_div_is_ordered(
            2 * SIMILARITY_SCALE * m,
            SIMILARITY_SCALE * (c1 + c2),
            c1 + c2,
        );
        vstd::arithmetic::div_mod::lemma_div_multiples_vanish(SIMILARITY_SCALE as int, c1 + c2);
        assert((c1 + c2) * SIMILARITY_SCALE == SIMILARITY_SCALE * (c1 + c2)) by (nonlinear_arith);
        vstd::arithmetic::div_mod::lemma_div_pos_is_pos(2 * SIMILARITY_SCALE * m, c1 + c2);
    }
}

proof fn lemma_sums_bound(h1: Seq<u64>, h2: Seq<u64>, n: int)
    requires
        0 <= n,
    ensures
        0 <= similarity_sum(h1, h2, n) <= SIMILARITY_SCALE * present_tags(h1, h2, n),
        0 <= present_tags(h1, h2, n) <= n,
    decreases n,
{
    if n > 0 {
        lemma_sums_bound(h1, h2, n - 1);
        lemma_tag_similarity_bound(h1[n - 1] as int, h2[n - 1] as int);
    }
}

/// The structural similarity of two histograms, in millionths.
pub fn calculate_structural_similarity(h1: &FeatureHistogram, h2: &FeatureHistogram) -> (r: u64)
    requires
        h1@.len() == TAG_COUNT,
        h2@.len() == TAG_COUNT,
    ensures
        r == structural_similarity(h1@, h2@),
        r <= SIMILARITY_SCALE,
{
    let mut sum: u64 = 0;
    let mut present: u64 = 0;
    let mut k: usize = 0;
    while k < TAG_COUNT
        invariant
            k <= TAG_COUNT,
            h1@.len() == TAG_COUNT,
            h2@.len() == TAG_COUNT,
            sum == similarity_sum(h1@, h2@, k as int),
            present == present_tags(h1@, h2@, k as int),
            present <= k,
            sum <= SIMILARITY_SCALE * present,
        decreases TAG_COUNT - k,
    {
        let c1 = h1.count_at(k);
        let c2 = h2.count_at(k);
        proof {
            lemma_tag_similarity_bound(c1 as int, c2 as int);
        }
        if c1 as u128 + c2 as u128 > 0 {
            let m: u128 = if c1 <= c2 { c1 as u128 } else { c2 as u128 };
            let t = (2 * (SIMILARITY_SCALE as u128) * m) / (c1 as u128 + c2 as u128);
            sum = sum + t as u64;
            present = present + 1;
        }
        k = k + 1;
    }
    proof {
        lemma_sums_bound(h1@, h2@, TAG_COUNT as int);
    }
    if present == 0 {
        0
    } else {
        proof {
            vstd::arithmetic::div_mod::lemma_div_is_ordered(sum as int, SIMILARITY_SCALE * present, present as int);
            vstd::arithmetic::div_mod::lemma_div_multiples_vanish(SIMILARITY_SCALE as int, present as int);
            assert(present * SIMILARITY_SCALE == SIMILARITY_SCALE * present) by (nonlinear_arith);
        }
        sum / present
    }
}

/// The similarity of two fingerprints, in millionths, given the similarity
/// `token_sim` of their space-joined token texts.
pub fn calculate_similarity(fp1: &CodeFingerprint, fp2: &CodeFingerprint, token_sim: u64) -> (r: u64)
    requires
        fp1.structural_features@.len() == TAG_COUNT,
        fp2.structural_features@.len() == TAG_COUNT,
        token_sim <= SIMILARITY_SCALE,
    ensures
        r == similarity_of(*fp1, *fp2, token_sim as int),
        r <= SIMILARITY_SCALE,
{
    let hash_part: u64 = if fp1.ast_hash == fp2.ast_hash { SIMILARITY_SCALE } else { 0 };
    let struct_sim = calculate_structural_similarity(&fp1.structural_features, &fp2.structural_features);
    (4 * hash_part + 4 * token_sim + 2 * struct_sim) / 10
}

/// A fingerprint compared with itself is fully similar when its token texts
/// are (as they are for equal texts) and it counts at least one construct.
pub proof fn lemma_similarity_reflexive(fp: CodeFingerprint)
    requires
        fp.structural_features@.len() == TAG_COUNT,
        exists|t: Tag| fp.structural_features@[tag_index(t)] > 0,
    ensures
        similarity_of(fp, fp, SIMILARITY_SCALE as int) == SIMILARITY_SCALE,
{
    let h = fp.structural_features@;
    lemma_sums_self(h, TAG_COUNT as int);
    let t = choose|t: Tag| h[tag_index(t)] > 0;
    lemma_present_positive(h, TAG_COUNT as int, tag_index(t));
    let c = present_tags(h, h, TAG_COUNT as int);
    vstd::arithmetic::div_mod::lemma_div_multiples_vanish(SIMILARITY_SCALE as int, c);
    assert(c * SIMILARITY_SCALE == SIMILARITY_SCALE * c) by (nonlinear_arith);
}

proof fn lemma_sums_self(h: Seq<u64>, n: int)
    requires
        0 <= n,
    ensures
        similarity_sum(h, h, n) == SIMILARITY_SCALE * present_tags(h, h, n),
    decreases n,
{
    if n > 0 {
        lemma_sums_self(h, n - 1);
        let c = h[n - 1] as int;
        if c > 0 {
            vstd::arithmetic::div_mod::lemma_div_multiples_vanish(SIMILARITY_SCALE as int, c + c);
            assert(2 * SIMILARITY_SCALE * c == (c + c) * SIMILARITY_SCALE) by (nonlinear_arith);
        }
        let p = present_tags(h, h, n - 1);
        let d: int = if h[n - 1] + h[n - 1] > 0 { 1 } else { 0 };
        assert(present_tags(h, h, n) == p + d);
        assert(SIMILARITY_SCALE * (p + d) == SIMILARITY_SCALE * p + SIMILARITY_SCALE * d) by (nonlinear_arith);
    }
}

proof fn lemma_present_positive(h: Seq<u64>, n: int, k: int)
    requires
        0 <= k < n,
        h[k] > 0,
    ensures
        present_tags(h, h, n) > 0,
    decreases n,
{
    lemma_sums_bound(h, h, n - 1);
    if k < n - 1 {
        lemma_present_positive(h, n - 1, k);
    }
}

proof fn lemma_sums_symmetric(h1: Seq<u64>, h2: Seq<u64>, n: int)
    ensures
        similarity_sum(h1, h2, n) == similarity_sum(h2, h1, n),
        present_tags(h1, h2, n) == present_tags(h2, h1, n),
    decreases n,
{
    if n > 0 {
        lemma_sums_symmetric(h1, h2, n - 1);
    }
}

/// Similarity does not depend on the order of the two fingerprints.
pub proof fn lemma_similarity_symmetric(fp1: CodeFingerprint, fp2: CodeFingerprint, token_sim: int)
    ensures
        similarity_of(fp1, fp2, token_sim) == similarity_of(fp2, fp1, token_sim),
{
    lemma_sums_symmetric(fp1.structural_features@, fp2.structural_features@, TAG_COUNT as int);
}

} // verus!
