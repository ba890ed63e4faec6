//! Plagiarism checks: languages that can be fingerprinted, the store of
//! past submissions, which of them are compared, and what is reported.
use vstd::prelude::*;
use crate::fingerprint::{
    calculate_similarity, fingerprint_of, is_fingerprint_of, similarity_of, CodeFingerprint, SIMILARITY_SCALE,
};
use crate::syntax::{tree_tokens, SyntaxTree, Token, TAG_COUNT};
use crate::text::{chars_of, drop_prefix, same_chars, starts_with, starts_with_chars, str_eq};

verus! {

broadcast use vstd::string::group_string_axioms;

/// Matches below this similarity (0.3) are not reported.
pub const REPORT_THRESHOLD: u64 = 300_000;

/// How likely a submission is to be copied.
#[derive(PartialEq, Eq, Structural, Clone, Copy, Debug)]
pub enum RiskLevel {
    Low,
    Medium,
    High,
    Critical,
}

/// The risk band of a maximum similarity: from 0.9 critical, from 0.7 high,
/// from 0.5 medium, else low.
pub open spec fn risk_of(s: int) -> RiskLevel {
    if s >= 900_000 {
        RiskLevel::Critical
    } else if s >= 700_000 {
        RiskLevel::High
    } else if s >= 500_000 {
        RiskLevel::Medium
    } else {
        RiskLevel::Low
    }
}

/// The risk band of the maximum similarity `s`, in millionths.
pub fn assess_risk_level(s: u64) -> (r: RiskLevel)
    ensures
        r == risk_of(s as int),
{
    if s >= 900_000 {
        RiskLevel::Critical
    } else if s >= 700_000 {
        RiskLevel::High
    } else if s >= 500_000 {
        RiskLevel::Medium
    } else {
        RiskLevel::Low
    }
}

/// The languages that can be fingerprinted.
#[derive(PartialEq, Eq, Structural, Clone, Copy, Debug)]
pub enum SourceLanguage {
    /// TypeScript or JavaScript.
    Script,
    Rust,
}

/// Why a submission could not be fingerprinted.
#[derive(Debug)]
pub enum FingerprintError {
    UnsupportedLanguage(String),
    ParseError(String),
}

/// The name of the lowercase form of `s` that `lowercase` returns.
pub uninterp spec fn lower_of(s: Seq<char>) -> Seq<char>;

/// Relies on `str::to_lowercase`: the lowercase form of the text, which
/// depends on its characters alone.
#[verifier::external_body]
fn lowercase(s: &str) -> (r: String)
    ensures
        r@ == lower_of(s@),
{
    s.to_lowercase()
}

/// The language named by an already lowercased name.
pub open spec fn language_from_lower(l: Seq<char>) -> Option<SourceLanguage> {
    if l == "typescript"@ || l == "javascript"@ {
        Some(SourceLanguage::Script)
    } else if l == "rust"@ {
        Some(SourceLanguage::Rust)
    } else {
        None
    }
}

/// The language named by `lower`, a name already in lowercase.
pub fn language_from_lowercase(lower: &str) -> (r: Option<SourceLanguage>)
    ensures
        r == language_from_lower(lower@),
{
    if str_eq(lower, "typescript") || str_eq(lower, "javascript") {
        Some(SourceLanguage::Script)
    } else if str_eq(lower, "rust") {
        Some(SourceLanguage::Rust)
    } else {
        None
    }
}

/// The language of a submission, named in any case; an error for any other name.
pub fn fingerprint_language(language: &str) -> (r: Result<SourceLanguage, FingerprintError>)
    ensures
        r matches Ok(l) ==> language_from_lower(lower_of(language@)) == Some(l),
        r is Err ==> language_from_lower(lower_of(language@)) is None,
        r matches Err(e) ==> e is UnsupportedLanguage,
{
    let lower = lowercase(language);
    match language_from_lowercase(lower.as_str()) {
        Some(l) => Ok(l),
        None => {
            let mut m = String::from_str("Unsupported language for plagiarism detection: ");
            m.append(language);
            Err(FingerprintError::UnsupportedLanguage(m))
        },
    }
}

/// The key prefix for a challenge id and an already lowercased language name.
pub fn comparison_key_lower(challenge_id: &str, language_lower: &str) -> (k: String)
    ensures
        k@ == challenge_id@ + ":"@ + language_lower@,
{
    let mut k = String::from_str(challenge_id);
    k.append(":");
    k.append(language_lower);
    k
}

/// The key prefix that submissions of one challenge in one language share:
/// the challenge id, a colon, and the lowercase language name.
pub fn comparison_key(challenge_id: &str, language: &str) -> (k: String)
    ensures
        k@ == challenge_id@ + ":"@ + lower_of(language@),
{
    let lower = lowercase(language);
    comparison_key_lower(challenge_id, lower.as_str())
}

/// A stored submission and its fingerprint.
pub struct StoredSubmission {
    pub submission_id: String,
    pub fingerprint: CodeFingerprint,
}

/// One reported match.
pub struct MatchedSubmission {
    pub submission_id: String,
    /// In millionths.
    pub similarity_score: u64,
    pub matched_sections: Vec<String>,
}

/// The outcome of a plagiarism check.
pub struct PlagiarismResult {
    /// The highest similarity reported, in millionths; zero when none is.
    pub similarity_score: u64,
    pub matched_submissions: Vec<MatchedSubmission>,
    pub risk_level: RiskLevel,
    pub analysis_time_ms: u64,
}

/// A submission under `id` is compared for key prefix `key` (challenge and
/// language) and user `user`: the id is the prefix, a colon, and the name of
/// another user.
pub open spec fn is_candidate(id: Seq<char>, key: Seq<char>, user: Seq<char>) -> bool {
    starts_with(id, key + ":"@) && id.skip(key.len() + 1int) != user
}

/// The positions among the first `n` submissions that are compared, in order.
pub open spec fn candidates_upto(
    entries: Seq<StoredSubmission>,
    key: Seq<char>,
    user: Seq<char>,
    n: int,
) -> Seq<usize>
    decreases n,
{
    if n <= 0 {
        Seq::empty()
    } else {
        let c = candidates_upto(entries, key, user, n - 1);
        if is_candidate(entries[n - 1].submission_id@, key, user) {
            c.push((n - 1) as usize)
        } else {
            c
        }
    }
}

/// The matches among the first `n` candidates: the stored position and the
/// similarity of each candidate at or above the threshold, in order.
pub open spec fn reported(
    entries: Seq<StoredSubmission>,
    fp: CodeFingerprint,
    cands: Seq<usize>,
    sims: Seq<u64>,
    n: int,
) -> Seq<(int, int)>
    decreases n,
{
    if n <= 0 {
        Seq::empty()
    } else {
        let r = reported(entries, fp, cands, sims, n - 1);
        let score = similarity_of(fp, entries[cands[n - 1] as int].fingerprint, sims[n - 1] as int);
        if score >= REPORT_THRESHOLD {
            r.push((cands[n - 1] as int, score))
        } else {
            r
        }
    }
}

/// The highest similarity among the matches, zero when there is none.
pub open spec fn max_score(r: Seq<(int, int)>) -> int
    decreases r.len(),
{
    if r.len() == 0 {
        0
    } else {
        let m = max_score(r.drop_last());
        if r.last().1 > m {
            r.last().1
        } else {
            m
        }
    }
}

proof fn lemma_reported_above_threshold(
    entries: Seq<StoredSubmission>,
    fp: CodeFingerprint,
    cands: Seq<usize>,
    sims: Seq<u64>,
    n: int,
)
    ensures
        forall|i: int|
            0 <= i < reported(entries, fp, cands, sims, n).len() ==> #[trigger] reported(
                entries,
                fp,
                cands,
                sims,
                n,
            )[i].1 >= REPORT_THRESHOLD,
    decreases n,
{
    if n > 0 {
        lemma_reported_above_threshold(entries, fp, cands, sims, n - 1);
        let r = reported(entries, fp, cands, sims, n - 1);
        let rn = reported(entries, fp, cands, sims, n);
        assert forall|i: int| 0 <= i < rn.len() implies #[trigger] rn[i].1 >= REPORT_THRESHOLD by {
            if i < r.len() {
                assert(rn[i] == r[i]);
            }
        }
    }
}

/// With a maximum similarity below the threshold, no match is reported.
pub proof fn lemma_no_match_below_threshold(
    entries: Seq<StoredSubmission>,
    fp: CodeFingerprint,
    cands: Seq<usize>,
    sims: Seq<u64>,
    n: int,
)
    requires
        max_score(reported(entries, fp, cands, sims, n)) < REPORT_THRESHOLD,
    ensures
        reported(entries, fp, cands, sims, n).len() == 0,
{
    let r = reported(entries, fp, cands, sims, n);
    lemma_reported_above_threshold(entries, fp, cands, sims, n);
    if r.len() > 0 {
        assert(r[r.len() - 1].1 >= REPORT_THRESHOLD);
    }
}

/// The language of a parsed tree.
pub open spec fn tree_language(t: SyntaxTree) -> SourceLanguage {
    match t {
        SyntaxTree::Rust(_) => SourceLanguage::Rust,
        SyntaxTree::Script(_) => SourceLanguage::Script,
    }
}

/// `language` names, in any case, a fingerprinted language, and `t` is a
/// tree of it.
pub open spec fn accepts_tree(language: Seq<char>, t: SyntaxTree) -> bool {
    language_from_lower(lower_of(language)) == Some(tree_language(t))
}

/// Checks that `language` is fingerprinted and that `tree` is of it.
pub fn check_tree_language(language: &str, tree: &SyntaxTree) -> (r: Result<(), FingerprintError>)
    ensures
        r is Ok <==> accepts_tree(language@, *tree),
        r matches Err(e) ==> (e is UnsupportedLanguage <==> language_from_lower(lower_of(language@)) is None),
{
    let l = fingerprint_language(language)?;
    let matches = match (l, tree) {
        (SourceLanguage::Rust, SyntaxTree::Rust(_)) => true,
        (SourceLanguage::Script, SyntaxTree::Script(_)) => true,
        _ => false,
    };
    if matches {
        Ok(())
    } else {
        let mut m = String::from_str("Parse error: the parsed source is not in ");
        m.append(language);
        Err(FingerprintError::ParseError(m))
    }
}

/// `after` is `before` with the fingerprint of `code` (tokens `toks`)
/// stored under `id`: in place of an entry with that id, or else added last.
pub open spec fn is_store(
    before: Seq<StoredSubmission>,
    after: Seq<StoredSubmission>,
    id: Seq<char>,
    code: Seq<char>,
    toks: Seq<Token>,
) -> bool {
    &&& (exists|k: int| 0 <= k < before.len() && before[k].submission_id@ == id) ==> {
        &&& after.len() == before.len()
        &&& forall|j: int|
            0 <= j < before.len() ==> {
                if before[j].submission_id@ == id {
                    &&& #[trigger] after[j].submission_id@ == id
                    &&& is_fingerprint_of(after[j].fingerprint, code, toks)
                } else {
                    after[j] == before[j]
                }
            }
    }
    &&& (forall|k: int| 0 <= k < before.len() ==> before[k].submission_id@ != id) ==> {
        &&& after.len() == before.len() + 1
        &&& after.drop_last() == before
        &&& after.last().submission_id@ == id
        &&& is_fingerprint_of(after.last().fingerprint, code, toks)
    }
}

/// The submissions compared against one another for plagiarism.
///
/// They are held in a `Vec` with distinct ids rather than a `HashMap` keyed
/// by `String`: with `String` keys Verus proves nothing about a `HashMap`'s
/// contents, and a `HashMap` is walked in an order that differs from process
/// to process. The `Vec` keeps the same contents, one entry per id, and makes
/// the order of reported matches the order of storing.
pub struct AntiCheatEngine {
    submissions: Vec<StoredSubmission>,
}

impl AntiCheatEngine {
    /// The stored submissions, in the order they were first stored.
    pub closed spec fn entries(&self) -> Seq<StoredSubmission> {
        self.submissions@
    }

    /// Submission ids are distinct and every histogram is complete.
    pub open spec fn wf(&self) -> bool {
        &&& forall|i: int, j: int|
            0 <= i < j < self.entries().len() ==> #[trigger] self.entries()[i].submission_id@
                != #[trigger] self.entries()[j].submission_id@
        &&& forall|i: int|
            0 <= i < self.entries().len() ==> #[trigger] self.entries()[i].fingerprint.structural_features@.len()
                == TAG_COUNT
    }

    /// An engine with nothing stored.
    pub fn new() -> (e: AntiCheatEngine)
        ensures
            e.wf(),
            e.entries().len() == 0,
    {
        AntiCheatEngine { submissions: Vec::new() }
    }

    /// The number of stored submissions.
    pub fn len(&self) -> (n: usize)
        ensures
            n == self.entries().len(),
    {
        self.submissions.len()
    }

    /// The stored submission at position `i`.
    pub fn submission(&self, i: usize) -> (s: &StoredSubmission)
        requires
            i < self.entries().len(),
        ensures
            *s == self.entries()[i as int],
    {
        &self.submissions[i]
    }

    /// The fingerprint of source text `code` in `language` (named in any
    /// case), parsed as `tree`. Fails for a language that is not
    /// fingerprinted, and for a tree of another language.
    pub fn generate_fingerprint(&self, code: &str, language: &str, tree: &SyntaxTree) -> (r: Result<
        CodeFingerprint,
        FingerprintError,
    >)
        ensures
            r is Ok <==> accepts_tree(language@, *tree),
            r matches Err(e) ==> (e is UnsupportedLanguage <==> language_from_lower(lower_of(language@)) is None),
            r matches Ok(fp) ==> is_fingerprint_of(fp, code@, tree_tokens(*tree)),
    {
        check_tree_language(language, tree)?;
        Ok(fingerprint_of(code, tree))
    }

    /// Stores the fingerprint of `code` in `language`, parsed as `tree`,
    /// under `submission_id`, replacing what was stored under that id
    /// before. Fails, storing nothing, as `generate_fingerprint` does.
    pub fn store_submission(&mut self, submission_id: &str, code: &str, language: &str, tree: &SyntaxTree) -> (r:
        Result<(), FingerprintError>)
        requires
            old(self).wf(),
        ensures
            final(self).wf(),
            r is Ok <==> accepts_tree(language@, *tree),
            r matches Err(e) ==> (e is UnsupportedLanguage <==> language_from_lower(lower_of(language@)) is None),
            r is Ok ==> is_store(old(self).entries(), final(self).entries(), submission_id@, code@, tree_tokens(*tree)),
            r is Err ==> final(self).entries() == old(self).entries(),
    {
        check_tree_language(language, tree)?;
        self.store_fingerprint(submission_id, code, tree);
        Ok(())
    }

    /// Stores the fingerprint of `code`, parsed as `tree`, under
    /// `submission_id`, replacing what was stored under that id before.
    fn store_fingerprint(&mut self, submission_id: &str, code: &str, tree: &SyntaxTree)
        requires
            old(self).wf(),
        ensures
            final(self).wf(),
            is_store(old(self).entries(), final(self).entries(), submission_id@, code@, tree_tokens(*tree)),
    {
        let fingerprint = fingerprint_of(code, tree);
        let id = String::from_str(submission_id);
        let mut i: usize = 0;
        while i < self.submissions.len()
            invariant
                i <= self.entries().len(),
                old(self).wf(),
                self.entries() == old(self).entries(),
                id@ == submission_id@,
                is_fingerprint_of(fingerprint, code@, tree_tokens(*tree)),
                forall|j: int| 0 <= j < i ==> self.entries()[j].submission_id@ != submission_id@,
            decreases self.submissions.len() - i,
        {
            if self.submissions[i].submission_id == id {
                let ghost before = self.entries();
                assert(before[i as int].submission_id@ == submission_id@);
                self.submissions.set(i, StoredSubmission { submission_id: id, fingerprint });
                assert forall|j: int| 0 <= j < before.len() && j != i implies before[j].submission_id@
                    != submission_id@ by {
                    if j < i {
                        assert(before[j].submission_id@ != before[i as int].submission_id@);
                    } else {
                        assert(before[i as int].submission_id@ != before[j].submission_id@);
                    }
                }
                assert forall|a: int, b: int| 0 <= a < b < self.entries().len() implies #[trigger] self.entries()[a].submission_id@
                    != #[trigger] self.entries()[b].submission_id@ by {
                    if a != i && b != i {
                        assert(before[a].submission_id@ != before[b].submission_id@);
                    }
                }
                return;
            }
            i = i + 1;
        }
        let ghost before = self.entries();
        self.submissions.push(StoredSubmission { submission_id: id, fingerprint });
        assert(self.entries().drop_last() =~= before);
    }

    /// The positions of the stored submissions compared for key prefix `key`
    /// and user `user_id`, in order.
    pub fn candidate_ids(&self, key: &str, user_id: &str) -> (r: Vec<usize>)
        ensures
            r@ == candidates_upto(self.entries(), key@, user_id@, self.entries().len() as int),
    {
        let mut kc = chars_of(key);
        kc.push(':');
        proof {
            reveal_strlit(":");
            assert(kc@ =~= key@ + ":"@);
            assert(kc@.len() == key@.len() + 1);
        }
        let uc = chars_of(user_id);
        let mut r: Vec<usize> = Vec::new();
        let mut i: usize = 0;
        while i < self.submissions.len()
            invariant
                i <= self.entries().len(),
                kc@ == key@ + ":"@,
                kc@.len() == key@.len() + 1,
                uc@ == user_id@,
                r@ == candidates_upto(self.entries(), key@, user_id@, i as int),
            decreases self.submissions.len() - i,
        {
            let idc = chars_of(self.submissions[i].submission_id.as_str());
            if starts_with_chars(&idc, &kc) {
                let rest = drop_prefix(&idc, kc.len());
                if !same_chars(&rest, &uc) {
                    r.push(i);
                }
            }
            i = i + 1;
        }
        r
    }

    /// Reports the candidates at position `candidates[k]` whose similarity
    /// to `fp`, with token similarity `token_sims[k]`, reaches the
    /// threshold, with the highest similarity and its risk band.
    pub fn match_submissions(
        &self,
        fp: &CodeFingerprint,
        candidates: &Vec<usize>,
        token_sims: &Vec<u64>,
        analysis_time_ms: u64,
    ) -> (r: PlagiarismResult)
        requires
            self.wf(),
            fp.structural_features@.len() == TAG_COUNT,
            candidates@.len() == token_sims@.len(),
            forall|k: int| 0 <= k < candidates@.len() ==> #[trigger] candidates@[k] < self.entries().len(),
            forall|k: int| 0 <= k < token_sims@.len() ==> #[trigger] token_sims@[k] <= SIMILARITY_SCALE,
        ensures
            ({
                let rep = reported(self.entries(), *fp, candidates@, token_sims@, candidates@.len() as int);
                &&& r.matched_submissions@.len() == rep.len()
                &&& forall|i: int|
                    0 <= i < rep.len() ==> {
                        &&& (#[trigger] r.matched_submissions@[i]).submission_id@
                            == self.entries()[rep[i].0].submission_id@
                        &&& r.matched_submissions@[i].similarity_score == rep[i].1
                        &&& r.matched_submissions@[i].matched_sections@.len() == 1
                        &&& r.matched_submissions@[i].matched_sections@[0]@ == "full_code"@
                    }
                &&& r.similarity_score == max_score(rep)
            }),
            r.risk_level == risk_of(r.similarity_score as int),
            r.analysis_time_ms == analysis_time_ms,
            r.similarity_score < REPORT_THRESHOLD ==> r.matched_submissions@.len() == 0,
            r.matched_submissions@.len() == 0 ==> r.similarity_score == 0 && r.risk_level == RiskLevel::Low,
    {
        let ghost entries = self.entries();
        let mut matched: Vec<MatchedSubmission> = Vec::new();
        let mut best: u64 = 0;
        let mut k: usize = 0;
        while k < candidates.len()
            invariant
                self.wf(),
                entries == self.entries(),
                fp.structural_features@.len() == TAG_COUNT,
                k <= candidates@.len(),
                candidates@.len() == token_sims@.len(),
                forall|j: int| 0 <= j < candidates@.len() ==> #[trigger] candidates@[j] < entries.len(),
                forall|j: int| 0 <= j < token_sims@.len() ==> #[trigger] token_sims@[j] <= SIMILARITY_SCALE,
                ({
                    let rep = reported(entries, *fp, candidates@, token_sims@, k as int);
                    &&& matched@.len() == rep.len()
                    &&& forall|i: int|
                        0 <= i < rep.len() ==> {
                            &&& (#[trigger] matched@[i]).submission_id@ == entries[rep[i].0].submission_id@
                            &&& matched@[i].similarity_score == rep[i].1
                            &&& matched@[i].matched_sections@.len() == 1
                            &&& matched@[i].matched_sections@[0]@ == "full_code"@
                        }
                    &&& best == max_score(rep)
                }),
                best <= SIMILARITY_SCALE,
            decreases candidates.len() - k,
        {
            let c = candidates[k];
            let stored = &self.submissions[c];
            let score = calculate_similarity(fp, &stored.fingerprint, token_sims[k]);
            let ghost rep = reported(entries, *fp, candidates@, token_sims@, k as int);
            if score >= REPORT_THRESHOLD {
                let mut sections: Vec<String> = Vec::new();
                sections.push(String::from_str("full_code"));
                matched.push(MatchedSubmission {
                    submission_id: stored.submission_id.clone(),
                    similarity_score: score,
                    matched_sections: sections,
                });
                assert(reported(entries, *fp, candidates@, token_sims@, k + 1).drop_last() =~= rep);
                if score > best {
                    best = score;
                }
            }
            k = k + 1;
        }
        proof {
            if best < REPORT_THRESHOLD {
                lemma_no_match_below_threshold(entries, *fp, candidates@, token_sims@, candidates@.len() as int);
            }
        }
        PlagiarismResult {
            similarity_score: best,
            matched_submissions: matched,
            risk_level: assess_risk_level(best),
            analysis_time_ms,
        }
    }
}

} // verus!
