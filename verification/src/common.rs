//! The entities of a poll and what each of them is called.
use vstd::prelude::*;
use crate::error::{FromErrorKind, FromErrorView};
use crate::text::{
    concat, decimal, decimal_text, integer_of, lowercase, parse_integer, replace, replaced,
    same_text, split, split_by, split_from, to_lowercase, trim, trimmed,
};
use crate::time::{timestamp_of, timestamp_text, Timestamp};

verus! {

/// The separator between the columns of a stored row.
pub const DELIMITER: &'static str = ",-o-,";

/// `string` with every column separator turned into a plain comma.
pub fn cleanup_delimiter(string: &str) -> (r: String)
    ensures
        r@ == replaced(string@, DELIMITER@, ","@),
{
    proof {
        reveal_strlit(",-o-,");
    }
    replace(string, DELIMITER, ",")
}

/// `string` followed by the column separator.
pub fn add_delimiter(string: &str) -> (r: String)
    ensures
        r@ == string@ + DELIMITER@,
{
    concat(string, DELIMITER)
}

/// `string` and `accumu` with the column separator between them.
pub fn accumulate_strings_with_delimiter(string: &str, accumu: &str) -> (r: String)
    ensures
        r@ == string@ + DELIMITER@ + accumu@,
{
    let head = concat(string, DELIMITER);
    concat(head.as_str(), accumu)
}

/// The text of `s`, or the empty text where there is none.
pub fn from_optional_str(s: Option<&str>) -> (r: String)
    ensures
        r@ == (match s {
            Some(b) => b@,
            None => Seq::<char>::empty(),
        }),
{
    match s {
        Some(b) => b.to_owned(),
        None => String::new(),
    }
}

/// A copy of an optional text.
pub fn copy_optional_text(s: &Option<String>) -> (r: Option<String>)
    ensures
        r.deep_view() == s.deep_view(),
{
    match s {
        Some(t) => Some(t.clone()),
        None => None,
    }
}

/// The texts of `parts` with `sep` between each two neighbours.
pub open spec fn joined(parts: Seq<Seq<char>>, sep: Seq<char>) -> Seq<char>
    decreases parts.len(),
{
    if parts.len() == 0 {
        Seq::empty()
    } else if parts.len() == 1 {
        parts[0]
    } else {
        joined(parts.drop_last(), sep) + sep + parts.last()
    }
}

/// Joins `parts` with `sep` between each two neighbours.
pub fn join_with(parts: &Vec<String>, sep: &str) -> (r: String)
    ensures
        r@ == joined(parts.deep_view(), sep@),
{
    let mut out = String::new();
    let mut i: usize = 0;
    while i < parts.len()
        invariant
            i <= parts.len(),
            out@ == joined(parts.deep_view().take(i as int), sep@),
        decreases parts.len() - i,
    {
        let ghost before = parts.deep_view().take(i as int);
        let ghost after = parts.deep_view().take(i + 1);
        assert(after.drop_last() =~= before);
        assert(after.last() == parts[i as int]@);
        if i > 0 {
            out.append(sep);
        }
        out.append(parts[i].as_str());
        i += 1;
    }
    assert(parts.deep_view().take(parts.len() as int) =~= parts.deep_view());
    out
}

/// An entity that has a value standing for "nothing here".
pub trait Empty: Sized {
    /// Whether `self` is the value that stands for "nothing here".
    spec fn is_blank(&self) -> bool;

    fn empty() -> (r: Self)
        ensures
            r.is_blank(),
    ;
}

/// An entity that knows the id it is stored under.
pub trait IdGenerator {
    /// The id that the entity answers to.
    spec fn id_text(&self) -> Seq<char>;

    /// The id derived from what the entity holds.
    spec fn generated_id_text(&self) -> Seq<char>;

    fn get_id(&self) -> (r: String)
        ensures
            r@ == self.id_text(),
    ;

    fn generate_id(&self) -> (r: String)
        ensures
            r@ == self.generated_id_text(),
    ;
}

/// An entity that can say what kind it is and what it is called.
pub trait Selfaware {
    spec fn type_text(&self) -> Seq<char>;

    spec fn name_text(&self) -> Seq<char>;

    fn get_type(&self) -> (r: String)
        ensures
            r@ == self.type_text(),
    ;

    fn get_name(&self) -> (r: String)
        ensures
            r@ == self.name_text(),
    ;
}

/// The colours a poll is shown in.
#[derive(Debug)]
pub struct VotingStyles {
    pub background: String,
    pub font: String,
    pub selection: String,
    pub fields: String,
}

/// What a `VotingStyles` holds.
pub struct VotingStylesView {
    pub background: Seq<char>,
    pub font: Seq<char>,
    pub selection: Seq<char>,
    pub fields: Seq<char>,
}

impl View for VotingStyles {
    type V = VotingStylesView;

    open spec fn view(&self) -> VotingStylesView {
        VotingStylesView {
            background: self.background@,
            font: self.font@,
            selection: self.selection@,
            fields: self.fields@,
        }
    }
}

impl DeepView for VotingStyles {
    type V = VotingStylesView;

    open spec fn deep_view(&self) -> VotingStylesView {
        self@
    }
}

impl Clone for VotingStyles {
    fn clone(&self) -> (r: Self)
        ensures
            r@ == self@,
    {
        VotingStyles {
            background: self.background.clone(),
            font: self.font.clone(),
            selection: self.selection.clone(),
            fields: self.fields.clone(),
        }
    }
}

/// The colours of a poll that names none.
pub open spec fn default_styles() -> VotingStylesView {
    VotingStylesView {
        background: "#30363d"@,
        font: "#ff0000"@,
        selection: "white"@,
        fields: "#238636"@,
    }
}

impl VotingStyles {
    pub fn default() -> (r: Self)
        ensures
            r@ == default_styles(),
    {
        VotingStyles {
            background: "#30363d".to_owned(),
            font: "#ff0000".to_owned(),
            selection: "white".to_owned(),
            fields: "#238636".to_owned(),
        }
    }

    /// The four colours, separated by a comma and a space.
    pub fn values(&self) -> (r: String)
        ensures
            r@ == self.background@ + ", "@ + self.font@ + ", "@ + self.selection@ + ", "@
                + self.fields@,
    {
        let mut out = self.background.clone();
        out.append(", ");
        out.append(self.font.as_str());
        out.append(", ");
        out.append(self.selection.as_str());
        out.append(", ");
        out.append(self.fields.as_str());
        out
    }
}

/// Someone who can be voted for, or who votes.
#[derive(Debug)]
pub struct Candidate {
    pub voter: bool,
    pub id: Option<String>,
    pub label: String,
}

/// What a `Candidate` holds.
pub struct CandidateView {
    pub voter: bool,
    pub id: Option<Seq<char>>,
    pub label: Seq<char>,
}

impl View for Candidate {
    type V = CandidateView;

    open spec fn view(&self) -> CandidateView {
        CandidateView { voter: self.voter, id: self.id.deep_view(), label: self.label@ }
    }
}

impl DeepView for Candidate {
    type V = CandidateView;

    open spec fn deep_view(&self) -> CandidateView {
        self@
    }
}

impl Clone for Candidate {
    fn clone(&self) -> (r: Self)
        ensures
            r@ == self@,
    {
        Candidate {
            voter: self.voter,
            id: copy_optional_text(&self.id),
            label: self.label.clone(),
        }
    }
}

/// The label that an id stands for: the marker for a space becomes a space
/// again, then the stand-in for the marker becomes the marker.
pub open spec fn label_of_id(id: Seq<char>) -> Seq<char> {
    replaced(replaced(id, "-#s-"@, " "@), "%-%"@, "-#s-"@)
}

/// The id part that a label is stored under: the marker for a space gives way
/// to a stand-in, then every space becomes the marker.
pub open spec fn id_of_label(label: Seq<char>) -> Seq<char> {
    replaced(replaced(label, "-#s-"@, "%-%"@), " "@, "-#s-"@)
}

/// The prefix that tells the ids of voters from those of candidates.
pub open spec fn role_prefix(voter: bool) -> Seq<char> {
    if voter {
        "voter_"@
    } else {
        "candidate_"@
    }
}

/// The id of a candidate or voter with the given label.
pub open spec fn candidate_id(voter: bool, label: Seq<char>) -> Seq<char> {
    role_prefix(voter) + id_of_label(lowercase(label))
}

/// A voter and a candidate never share an id, whatever their labels.
pub proof fn lemma_roles_never_share_an_id(voter_label: Seq<char>, candidate_label: Seq<char>)
    ensures
        candidate_id(true, voter_label) != candidate_id(false, candidate_label),
{
    reveal_strlit("voter_");
    reveal_strlit("candidate_");
    assert(candidate_id(true, voter_label)[0] == 'v');
    assert(candidate_id(false, candidate_label)[0] == 'c');
}

impl Candidate {
    /// The names of the stored columns, in parentheses or bare.
    pub fn properties(in_parenthesis: bool) -> (r: String)
        ensures
            r@ == (if in_parenthesis {
                "( voter, id, label )"@
            } else {
                "voter, id, label"@
            }),
    {
        if in_parenthesis {
            "( voter, id, label )".to_owned()
        } else {
            "voter, id, label".to_owned()
        }
    }

    /// The stored row: the role, the quoted id and the quoted label.
    pub fn values(&self) -> (r: String)
        ensures
            r@ == (if self.voter {
                "true"@
            } else {
                "false"@
            }) + DELIMITER@ + "\""@ + self.id_text() + "\""@ + DELIMITER@ + "\""@ + self.label@
                + "\""@,
    {
        let mut out = if self.voter {
            "true".to_owned()
        } else {
            "false".to_owned()
        };
        out.append(DELIMITER);
        out.append("\"");
        out.append(self.get_id().as_str());
        out.append("\"");
        out.append(DELIMITER);
        out.append("\"");
        out.append(self.label.as_str());
        out.append("\"");
        out
    }

    /// The label that `id` was made from.
    pub fn get_label_from_id(id: &str) -> (r: String)
        ensures
            r@ == label_of_id(id@),
    {
        proof {
            reveal_strlit("-#s-");
            reveal_strlit("%-%");
        }
        let inserted_spaces = replace(id, "-#s-", " ");
        replace(inserted_spaces.as_str(), "%-%", "-#s-")
    }

    /// The id part for `label`.
    pub fn get_id_from_label(label: &str) -> (r: String)
        ensures
            r@ == id_of_label(label@),
    {
        proof {
            reveal_strlit("-#s-");
            reveal_strlit(" ");
        }
        let replaced_underscores = replace(label, "-#s-", "%-%");
        replace(replaced_underscores.as_str(), " ", "-#s-")
    }

    pub fn set_id(&mut self, id: &str)
        ensures
            final(self)@ == (CandidateView { id: Some(id@), ..old(self)@ }),
    {
        self.id = Some(id.to_owned());
    }

    /// A voter with the given label and no id yet.
    pub fn voter(label: &str) -> (r: Candidate)
        ensures
            r@ == (CandidateView { voter: true, id: None, label: label@ }),
    {
        Candidate { voter: true, id: None, label: label.to_owned() }
    }
}

impl Empty for Candidate {
    open spec fn is_blank(&self) -> bool {
        self@ == (CandidateView {
            voter: false,
            id: Some(Seq::<char>::empty()),
            label: Seq::<char>::empty(),
        })
    }

    fn empty() -> (r: Candidate) {
        Candidate { voter: false, id: Some(String::new()), label: String::new() }
    }
}

impl IdGenerator for Candidate {
    open spec fn id_text(&self) -> Seq<char> {
        match self.id {
            Some(i) => i@,
            None => self.generated_id_text(),
        }
    }

    open spec fn generated_id_text(&self) -> Seq<char> {
        candidate_id(self.voter, self.label@)
    }

    fn get_id(&self) -> (r: String) {
        match &self.id {
            Some(i) => i.clone(),
            None => self.generate_id(),
        }
    }

    fn generate_id(&self) -> (r: String) {
        let lowered = to_lowercase(self.label.as_str());
        let tail = Candidate::get_id_from_label(lowered.as_str());
        if self.voter {
            concat("voter_", tail.as_str())
        } else {
            concat("candidate_", tail.as_str())
        }
    }
}

impl Selfaware for Candidate {
    open spec fn type_text(&self) -> Seq<char> {
        if self.voter {
            "Voter"@
        } else {
            "Candidate"@
        }
    }

    open spec fn name_text(&self) -> Seq<char> {
        match self.id {
            Some(k) => lowercase(k@),
            None => self.label@,
        }
    }

    fn get_type(&self) -> (r: String) {
        if self.voter {
            "Voter".to_owned()
        } else {
            "Candidate".to_owned()
        }
    }

    fn get_name(&self) -> (r: String) {
        match &self.id {
            Some(k) => to_lowercase(k.as_str()),
            None => self.label.clone(),
        }
    }
}


/// The candidates and voters that are known.
#[derive(Debug)]
pub struct Candidates {
    pub candidates: Vec<Candidate>,
}

impl Candidates {
    /// Those of the entries that vote, in their order.
    pub fn voters(self) -> (r: Candidates)
        ensures
            r.candidates.deep_view() == self.candidates.deep_view().filter(
                |c: CandidateView| c.voter,
            ),
    {
        let picked = pick_role(&self.candidates, true);
        assert(self.candidates.deep_view().filter(|c: CandidateView| c.voter == true)
            == self.candidates.deep_view().filter(|c: CandidateView| c.voter)) by {
            assert((|c: CandidateView| c.voter == true) =~= (|c: CandidateView| c.voter));
        }
        Candidates { candidates: picked }
    }

    /// Those of the entries that can be voted for, in their order.
    pub fn candidates(self) -> (r: Candidates)
        ensures
            r.candidates.deep_view() == self.candidates.deep_view().filter(
                |c: CandidateView| !c.voter,
            ),
    {
        let picked = pick_role(&self.candidates, false);
        assert(self.candidates.deep_view().filter(|c: CandidateView| c.voter == false)
            == self.candidates.deep_view().filter(|c: CandidateView| !c.voter)) by {
            assert((|c: CandidateView| c.voter == false) =~= (|c: CandidateView| !c.voter));
        }
        Candidates { candidates: picked }
    }
}

/// Copies of the entries of `all` whose role is `voter`, in their order.
fn pick_role(all: &Vec<Candidate>, voter: bool) -> (r: Vec<Candidate>)
    ensures
        r.deep_view() == all.deep_view().filter(|c: CandidateView| c.voter == voter),
{
    let ghost pred = |c: CandidateView| c.voter == voter;
    let mut out: Vec<Candidate> = Vec::new();
    let mut i: usize = 0;
    proof {
        reveal(Seq::filter);
        assert(all.deep_view().take(0).filter(pred) =~= out.deep_view());
    }
    while i < all.len()
        invariant
            i <= all.len(),
            pred == (|c: CandidateView| c.voter == voter),
            out.deep_view() == all.deep_view().take(i as int).filter(pred),
        decreases all.len() - i,
    {
        proof {
            all.deep_view().lemma_take_succ_push(i as int);
            all.deep_view().take(i as int).lemma_filter_push(all[i as int]@, pred);
        }
        if all[i].voter == voter {
            let ghost before = out.deep_view();
            out.push(all[i].clone());
            assert(out.deep_view() =~= before.push(all[i as int]@));
        }
        i += 1;
    }
    assert(all.deep_view().take(all.len() as int) =~= all.deep_view());
    out
}

impl Empty for Candidates {
    open spec fn is_blank(&self) -> bool {
        self.candidates@.len() == 0
    }

    fn empty() -> (r: Candidates) {
        Candidates { candidates: Vec::new() }
    }
}

/// One score given on one criterion.
#[derive(Debug)]
pub struct Vote {
    pub name: String,
    pub point: i8,
}

/// What a `Vote` holds.
pub struct VoteView {
    pub name: Seq<char>,
    pub point: i8,
}

impl View for Vote {
    type V = VoteView;

    open spec fn view(&self) -> VoteView {
        VoteView { name: self.name@, point: self.point }
    }
}

impl DeepView for Vote {
    type V = VoteView;

    open spec fn deep_view(&self) -> VoteView {
        self@
    }
}

impl Clone for Vote {
    fn clone(&self) -> (r: Self)
        ensures
            r@ == self@,
    {
        Vote { name: self.name.clone(), point: self.point }
    }
}

impl Vote {
    /// The name of the criterion, in lower case.
    pub fn get_name(&self) -> (r: String)
        ensures
            r@ == lowercase(self.name@),
    {
        to_lowercase(self.name.as_str())
    }

    /// The names of the stored columns, in parentheses or bare.
    pub fn properties(in_parenthesis: bool) -> (r: String)
        ensures
            r@ == (if in_parenthesis {
                "( name, point )"@
            } else {
                "name, point"@
            }),
    {
        if in_parenthesis {
            "( name, point )".to_owned()
        } else {
            "name, point".to_owned()
        }
    }

    /// The stored row: the name and the point.
    pub fn values(&self) -> (r: String)
        ensures
            r@ == self.name@ + DELIMITER@ + decimal(self.point as int),
    {
        let point = decimal_text(self.point as i128);
        accumulate_strings_with_delimiter(self.name.as_str(), point.as_str())
    }
}

impl Empty for Vote {
    open spec fn is_blank(&self) -> bool {
        self@ == (VoteView { name: Seq::<char>::empty(), point: 0 })
    }

    fn empty() -> (r: Vote) {
        Vote { name: String::new(), point: 0 }
    }
}

/// A vote as a database row holds it.
#[derive(Debug)]
pub struct VoteTable {
    pub name: String,
    pub point: i16,
}

impl VoteTable {
    /// The row for `v`.
    pub fn from(v: Vote) -> (r: VoteTable)
        ensures
            r.name@ == v.name@,
            r.point == v.point,
    {
        VoteTable { name: v.name, point: v.point as i16 }
    }

    /// The name of the criterion, in lower case.
    pub fn get_name(&self) -> (r: String)
        ensures
            r@ == lowercase(self.name@),
    {
        to_lowercase(self.name.as_str())
    }

    /// The names of the stored columns, in parentheses or bare.
    pub fn properties(in_parenthesis: bool) -> (r: String)
        ensures
            r@ == (if in_parenthesis {
                "( name, point )"@
            } else {
                "name, point"@
            }),
    {
        Vote::properties(in_parenthesis)
    }

    /// The stored row: the quoted name and the point.
    pub fn values(&self) -> (r: String)
        ensures
            r@ == "\""@ + self.name@ + "\""@ + DELIMITER@ + decimal(self.point as int),
    {
        let mut out = "\"".to_owned();
        out.append(self.name.as_str());
        out.append("\"");
        out.append(DELIMITER);
        out.append(decimal_text(self.point as i128).as_str());
        out
    }
}

/// A dimension on which candidates are scored. A weight `w` counts a point
/// `w / 10` times; without a weight a point counts once.
#[derive(Debug)]
pub struct Criterion {
    pub name: String,
    pub min: i8,
    pub max: i8,
    pub weight: Option<i32>,
}

/// What a `Criterion` holds.
pub struct CriterionView {
    pub name: Seq<char>,
    pub min: i8,
    pub max: i8,
    pub weight: Option<i32>,
}

impl View for Criterion {
    type V = CriterionView;

    open spec fn view(&self) -> CriterionView {
        CriterionView { name: self.name@, min: self.min, max: self.max, weight: self.weight }
    }
}

impl DeepView for Criterion {
    type V = CriterionView;

    open spec fn deep_view(&self) -> CriterionView {
        self@
    }
}

impl Clone for Criterion {
    fn clone(&self) -> (r: Self)
        ensures
            r@ == self@,
    {
        Criterion { name: self.name.clone(), min: self.min, max: self.max, weight: self.weight }
    }
}

/// The weight in the id of a criterion: its number, or "none" where the
/// criterion has no weight, which no number is written as.
pub open spec fn weight_in_id(weight: Option<i32>) -> Seq<char> {
    match weight {
        Some(w) => decimal(w as int),
        None => "none"@,
    }
}

/// The id of a criterion: its name in lower case, its range and its weight,
/// joined by underscores.
pub open spec fn criterion_id(c: CriterionView) -> Seq<char> {
    lowercase(c.name) + "_"@ + decimal(c.min as int) + "_"@ + decimal(c.max as int) + "_"@
        + weight_in_id(c.weight)
}

/// Two texts that end, behind an underscore, in parts without underscore
/// are the same only where these parts and what stands before them are the
/// same.
pub proof fn lemma_last_part(x: Seq<char>, s: Seq<char>, y: Seq<char>, t: Seq<char>)
    requires
        x + seq!['_'] + s == y + seq!['_'] + t,
        !s.contains('_'),
        !t.contains('_'),
    ensures
        x == y,
        s == t,
{
    let w = x + seq!['_'] + s;
    let v = y + seq!['_'] + t;
    assert(w.len() == v.len());
    if s.len() < t.len() {
        assert(w[x.len() as int] == '_');
        assert(v[x.len() as int] == t[x.len() - y.len() - 1]);
        assert(t.contains('_'));
    } else if t.len() < s.len() {
        assert(v[y.len() as int] == '_');
        assert(w[y.len() as int] == s[y.len() - x.len() - 1]);
        assert(s.contains('_'));
    }
    assert(x =~= w.take(x.len() as int));
    assert(y =~= v.take(y.len() as int));
    assert(s =~= w.skip(x.len() as int + 1));
    assert(t =~= v.skip(y.len() as int + 1));
}

/// A decimal text holds no underscore.
pub proof fn lemma_decimal_has_no_underscore(n: int)
    ensures
        !decimal(n).contains('_'),
{
    crate::text::lemma_decimal_chars(n);
}

/// The weight in an id holds no underscore, and tells every weight from
/// every other and from no weight.
pub proof fn lemma_weight_in_id(a: Option<i32>, b: Option<i32>)
    ensures
        !weight_in_id(a).contains('_'),
        weight_in_id(a) == weight_in_id(b) ==> a == b,
{
    reveal_strlit("none");
    match a {
        Some(x) => {
            lemma_decimal_has_no_underscore(x as int);
            crate::text::lemma_decimal_chars(x as int);
        },
        None => {},
    }
    match b {
        Some(y) => {
            crate::text::lemma_decimal_chars(y as int);
        },
        None => {},
    }
    if weight_in_id(a) == weight_in_id(b) {
        match (a, b) {
            (Some(x), Some(y)) => {
                crate::text::lemma_decimal_is_one_to_one(x as int, y as int);
            },
            (Some(x), None) => {
                assert(decimal(x as int)[0] == "none"@[0]);
            },
            (None, Some(y)) => {
                assert(decimal(y as int)[0] == "none"@[0]);
            },
            (None, None) => {},
        }
    }
}

/// Criteria that differ in their name, letter case aside, in their range
/// or in their weight have different ids.
pub proof fn lemma_criterion_ids_differ(a: CriterionView, b: CriterionView)
    requires
        criterion_id(a) == criterion_id(b),
    ensures
        lowercase(a.name) == lowercase(b.name),
        a.min == b.min,
        a.max == b.max,
        a.weight == b.weight,
{
    reveal_strlit("_");
    assert("_"@ =~= seq!['_']);
    lemma_weight_in_id(a.weight, b.weight);
    lemma_weight_in_id(b.weight, a.weight);
    lemma_decimal_has_no_underscore(a.min as int);
    lemma_decimal_has_no_underscore(b.min as int);
    lemma_decimal_has_no_underscore(a.max as int);
    lemma_decimal_has_no_underscore(b.max as int);
    let a2 = lowercase(a.name) + seq!['_'] + decimal(a.min as int) + seq!['_'] + decimal(
        a.max as int,
    );
    let b2 = lowercase(b.name) + seq!['_'] + decimal(b.min as int) + seq!['_'] + decimal(
        b.max as int,
    );
    lemma_last_part(a2, weight_in_id(a.weight), b2, weight_in_id(b.weight));
    let a1 = lowercase(a.name) + seq!['_'] + decimal(a.min as int);
    let b1 = lowercase(b.name) + seq!['_'] + decimal(b.min as int);
    lemma_last_part(a1, decimal(a.max as int), b1, decimal(b.max as int));
    lemma_last_part(lowercase(a.name), decimal(a.min as int), lowercase(b.name), decimal(b.min as int));
    crate::text::lemma_decimal_is_one_to_one(a.min as int, b.min as int);
    crate::text::lemma_decimal_is_one_to_one(a.max as int, b.max as int);
}

/// The weight column of a stored criterion: its number, or "NULL" where
/// the criterion has no weight.
pub open spec fn weight_column(weight: Option<i32>) -> Seq<char> {
    match weight {
        Some(w) => decimal(w as int),
        None => "NULL"@,
    }
}

impl Criterion {
    /// The names of the stored columns, in parentheses or bare.
    pub fn properties(in_parenthesis: bool) -> (r: String)
        ensures
            r@ == (if in_parenthesis {
                "( name, min, max, weight )"@
            } else {
                "name, min, max, weight"@
            }),
    {
        if in_parenthesis {
            "( name, min, max, weight )".to_owned()
        } else {
            "name, min, max, weight".to_owned()
        }
    }

    /// The stored row: the quoted name, the range and the weight, separated
    /// by a comma and a space.
    pub fn values(&self) -> (r: String)
        ensures
            r@ == "\""@ + self.name@ + "\""@ + ", "@ + decimal(self.min as int) + ", "@ + decimal(
                self.max as int,
            ) + ", "@ + weight_column(self.weight),
    {
        let mut out = "\"".to_owned();
        out.append(self.name.as_str());
        out.append("\"");
        out.append(", ");
        out.append(decimal_text(self.min as i128).as_str());
        out.append(", ");
        out.append(decimal_text(self.max as i128).as_str());
        out.append(", ");
        match self.weight {
            Some(w) => out.append(decimal_text(w as i128).as_str()),
            None => out.append("NULL"),
        }
        out
    }
}

impl Empty for Criterion {
    open spec fn is_blank(&self) -> bool {
        self@ == (CriterionView { name: Seq::<char>::empty(), min: 0, max: 10, weight: None })
    }

    fn empty() -> (r: Criterion) {
        Criterion { name: String::new(), min: 0, max: 10, weight: None }
    }
}

impl Selfaware for Criterion {
    open spec fn type_text(&self) -> Seq<char> {
        "Criterion"@
    }

    open spec fn name_text(&self) -> Seq<char> {
        lowercase(self.name@)
    }

    fn get_type(&self) -> (r: String) {
        "Criterion".to_owned()
    }

    fn get_name(&self) -> (r: String) {
        to_lowercase(self.name.as_str())
    }
}

impl IdGenerator for Criterion {
    open spec fn id_text(&self) -> Seq<char> {
        criterion_id(self@)
    }

    open spec fn generated_id_text(&self) -> Seq<char> {
        criterion_id(self@)
    }

    fn get_id(&self) -> (r: String) {
        self.generate_id()
    }

    fn generate_id(&self) -> (r: String) {
        let mut out = to_lowercase(self.name.as_str());
        out.append("_");
        out.append(decimal_text(self.min as i128).as_str());
        out.append("_");
        out.append(decimal_text(self.max as i128).as_str());
        out.append("_");
        match self.weight {
            Some(w) => out.append(decimal_text(w as i128).as_str()),
            None => out.append("none"),
        }
        out
    }
}

/// A criterion as a database row holds it.
#[derive(Debug)]
pub struct CriterionRow {
    pub name: String,
    pub min: i16,
    pub max: i16,
    pub weight: Option<i32>,
}

impl CriterionRow {
    /// The row for `cr`. It fits a criterion, and the criterion it holds
    /// is `cr`.
    pub fn from(cr: Criterion) -> (r: CriterionRow)
        ensures
            r.name@ == cr.name@,
            r.min == cr.min,
            r.max == cr.max,
            r.weight == cr.weight,
            r.fits(),
            r.name@ == cr@.name && r.min as i8 == cr@.min && r.max as i8 == cr@.max,
    {
        CriterionRow { name: cr.name, min: cr.min as i16, max: cr.max as i16, weight: cr.weight }
    }

    /// Whether the range of the row fits a criterion.
    pub open spec fn fits(&self) -> bool {
        -128 <= self.min <= 127 && -128 <= self.max <= 127
    }

    /// The criterion that the row holds, if its range fits one.
    pub fn to_criterion(&self) -> (r: Option<Criterion>)
        ensures
            r is Some <==> self.fits(),
            r is Some ==> r->0@ == (CriterionView {
                name: self.name@,
                min: self.min as i8,
                max: self.max as i8,
                weight: self.weight,
            }),
    {
        if -128 <= self.min && self.min <= 127 && -128 <= self.max && self.max <= 127 {
            Some(
                Criterion {
                    name: self.name.clone(),
                    min: self.min as i8,
                    max: self.max as i8,
                    weight: self.weight,
                },
            )
        } else {
            None
        }
    }
}

/// The criteria that are known.
#[derive(Debug)]
pub struct Criteria {
    pub criterias: Vec<Criterion>,
}

impl Criteria {
    /// The names of the stored columns, in parentheses or bare.
    pub fn properties(in_parenthesis: bool) -> (r: String)
        ensures
            r@ == (if in_parenthesis {
                "( name, min, max, weight )"@
            } else {
                "name, min, max, weight"@
            }),
    {
        Criterion::properties(in_parenthesis)
    }
}

impl Empty for Criteria {
    open spec fn is_blank(&self) -> bool {
        self.criterias@.len() == 0
    }

    fn empty() -> (r: Criteria) {
        Criteria { criterias: Vec::new() }
    }
}

impl IdGenerator for Criteria {
    open spec fn id_text(&self) -> Seq<char> {
        "Criteria"@
    }

    open spec fn generated_id_text(&self) -> Seq<char> {
        "Criteria"@
    }

    fn get_id(&self) -> (r: String) {
        self.generate_id()
    }

    fn generate_id(&self) -> (r: String) {
        self.get_type()
    }
}

impl Selfaware for Criteria {
    open spec fn type_text(&self) -> Seq<char> {
        "Criteria"@
    }

    open spec fn name_text(&self) -> Seq<char> {
        "Criteria"@
    }

    fn get_type(&self) -> (r: String) {
        "Criteria".to_owned()
    }

    fn get_name(&self) -> (r: String) {
        "Criteria".to_owned()
    }
}


/// One voter's scores for one candidate.
#[derive(Debug)]
pub struct Ballot {
    pub candidate: String,
    pub votes: Vec<Vote>,
    pub notes: Option<String>,
    pub voted_on: Option<Timestamp>,
}

/// What a `Ballot` holds.
pub struct BallotView {
    pub candidate: Seq<char>,
    pub votes: Seq<VoteView>,
    pub notes: Option<Seq<char>>,
    pub voted_on: Option<Timestamp>,
}

impl View for Ballot {
    type V = BallotView;

    open spec fn view(&self) -> BallotView {
        BallotView {
            candidate: self.candidate@,
            votes: self.votes.deep_view(),
            notes: self.notes.deep_view(),
            voted_on: self.voted_on,
        }
    }
}

impl DeepView for Ballot {
    type V = BallotView;

    open spec fn deep_view(&self) -> BallotView {
        self@
    }
}

impl Clone for Ballot {
    fn clone(&self) -> (r: Self)
        ensures
            r@ == self@,
    {
        let votes = self.votes.clone();
        assert(votes.deep_view() =~= self.votes.deep_view());
        Ballot {
            candidate: self.candidate.clone(),
            votes,
            notes: copy_optional_text(&self.notes),
            voted_on: self.voted_on,
        }
    }
}

/// The stored row of a vote.
pub open spec fn vote_row(v: VoteView) -> Seq<char> {
    v.name + DELIMITER@ + decimal(v.point as int)
}

/// The date column of a stored ballot.
pub open spec fn date_column(voted_on: Option<Timestamp>) -> Seq<char> {
    match voted_on {
        Some(t) => match timestamp_text(t.secs, t.nanos) {
            Some(text) => text,
            None => "n/a"@,
        },
        None => "n/a"@,
    }
}

/// The stored row of a ballot: the candidate, the rows of the votes, the
/// note and the date.
pub open spec fn ballot_row(b: BallotView) -> Seq<char> {
    b.candidate + DELIMITER@ + joined(b.votes.map_values(|v: VoteView| vote_row(v)), DELIMITER@)
        + DELIMITER@ + (match b.notes {
        Some(n) => n,
        None => "no-notes"@,
    }) + DELIMITER@ + date_column(b.voted_on)
}

impl Ballot {
    /// The stored row of the ballot.
    pub fn values(&self) -> (r: String)
        ensures
            r@ == ballot_row(self@),
    {
        let mut rows: Vec<String> = Vec::new();
        let mut i: usize = 0;
        while i < self.votes.len()
            invariant
                i <= self.votes.len(),
                rows.deep_view() == self.votes.deep_view().take(i as int).map_values(
                    |v: VoteView| vote_row(v),
                ),
            decreases self.votes.len() - i,
        {
            let ghost before = rows.deep_view();
            rows.push(self.votes[i].values());
            assert(rows.deep_view() =~= before.push(vote_row(self.votes[i as int]@)));
            assert(self.votes.deep_view().take(i + 1).map_values(|v: VoteView| vote_row(v))
                =~= before.push(vote_row(self.votes[i as int]@)));
            i += 1;
        }
        assert(self.votes.deep_view().take(self.votes.len() as int) =~= self.votes.deep_view());
        let mut out = self.candidate.clone();
        out.append(DELIMITER);
        out.append(join_with(&rows, DELIMITER).as_str());
        out.append(DELIMITER);
        match &self.notes {
            Some(n) => out.append(n.as_str()),
            None => out.append("no-notes"),
        }
        out.append(DELIMITER);
        let date = match &self.voted_on {
            Some(t) => t.to_text(),
            None => None,
        };
        match date {
            Some(text) => out.append(text.as_str()),
            None => out.append("n/a"),
        }
        out
    }
}

/// The ballots that one voter has cast.
#[derive(Debug)]
pub struct KnownBallots {
    pub voter: String,
    pub ballots: Vec<Ballot>,
}

/// What a `KnownBallots` holds.
pub struct KnownBallotsView {
    pub voter: Seq<char>,
    pub ballots: Seq<BallotView>,
}

impl View for KnownBallots {
    type V = KnownBallotsView;

    open spec fn view(&self) -> KnownBallotsView {
        KnownBallotsView { voter: self.voter@, ballots: self.ballots.deep_view() }
    }
}

impl DeepView for KnownBallots {
    type V = KnownBallotsView;

    open spec fn deep_view(&self) -> KnownBallotsView {
        self@
    }
}

impl Clone for KnownBallots {
    fn clone(&self) -> (r: Self)
        ensures
            r@ == self@,
    {
        let ballots = self.ballots.clone();
        assert(ballots.deep_view() =~= self.ballots.deep_view());
        KnownBallots { voter: self.voter.clone(), ballots }
    }
}

impl KnownBallots {
    /// The name of the voter, in lower case.
    pub fn get_name(&self) -> (r: String)
        ensures
            r@ == lowercase(self.voter@),
    {
        to_lowercase(self.voter.as_str())
    }

    /// The stored row: the voter and the rows of the ballots.
    pub fn values(&self) -> (r: String)
        ensures
            r@ == self.voter@ + DELIMITER@ + joined(
                self.ballots.deep_view().map_values(|b: BallotView| ballot_row(b)),
                DELIMITER@,
            ),
    {
        let mut rows: Vec<String> = Vec::new();
        let mut i: usize = 0;
        while i < self.ballots.len()
            invariant
                i <= self.ballots.len(),
                rows.deep_view() == self.ballots.deep_view().take(i as int).map_values(
                    |b: BallotView| ballot_row(b),
                ),
            decreases self.ballots.len() - i,
        {
            let ghost before = rows.deep_view();
            rows.push(self.ballots[i].values());
            assert(rows.deep_view() =~= before.push(ballot_row(self.ballots[i as int]@)));
            assert(self.ballots.deep_view().take(i + 1).map_values(|b: BallotView| ballot_row(b))
                =~= before.push(ballot_row(self.ballots[i as int]@)));
            i += 1;
        }
        assert(self.ballots.deep_view().take(self.ballots.len() as int)
            =~= self.ballots.deep_view());
        let mut out = self.voter.clone();
        out.append(DELIMITER);
        out.append(join_with(&rows, DELIMITER).as_str());
        out
    }
}

impl Empty for KnownBallots {
    open spec fn is_blank(&self) -> bool {
        self@ == (KnownBallotsView { voter: Seq::<char>::empty(), ballots: Seq::empty() })
    }

    fn empty() -> (r: KnownBallots) {
        let r = KnownBallots { voter: String::new(), ballots: Vec::new() };
        assert(r.ballots.deep_view() =~= Seq::empty());
        r
    }
}

/// What was cast in one poll: the unit that is stored is one voter's ballot
/// for one candidate.
#[derive(Debug)]
pub struct CastBallots {
    pub voting: Option<String>,
    pub ballots: Vec<KnownBallots>,
}

/// What a `CastBallots` holds.
pub struct CastBallotsView {
    pub voting: Option<Seq<char>>,
    pub ballots: Seq<KnownBallotsView>,
}

impl View for CastBallots {
    type V = CastBallotsView;

    open spec fn view(&self) -> CastBallotsView {
        CastBallotsView { voting: self.voting.deep_view(), ballots: self.ballots.deep_view() }
    }
}

impl DeepView for CastBallots {
    type V = CastBallotsView;

    open spec fn deep_view(&self) -> CastBallotsView {
        self@
    }
}

impl Clone for CastBallots {
    fn clone(&self) -> (r: Self)
        ensures
            r@ == self@,
    {
        let ballots = self.ballots.clone();
        assert(ballots.deep_view() =~= self.ballots.deep_view());
        CastBallots { voting: copy_optional_text(&self.voting), ballots }
    }
}

/// The id that cast ballots are stored under: the poll, the first voter and
/// that voter's first candidate, each in lower case and joined by hyphens.
/// With no voter it is the id of the poll's listing.
pub open spec fn cast_ballots_id(c: CastBallotsView) -> Seq<char> {
    let voting = lowercase(
        match c.voting {
            Some(v) => v,
            None => "dummy-voting"@,
        },
    );
    if c.ballots.len() == 0 {
        voting + "-index"@
    } else if c.ballots[0].ballots.len() == 0 {
        voting + "-"@ + lowercase(c.ballots[0].voter)
    } else {
        voting + "-"@ + lowercase(c.ballots[0].voter) + "-"@ + lowercase(
            c.ballots[0].ballots[0].candidate,
        )
    }
}

impl CastBallots {
    /// The names of the stored columns, in parentheses or bare.
    pub fn properties(in_parenthesis: bool) -> (r: String)
        ensures
            r@ == (if in_parenthesis {
                "( "@
                    + "human_identifier, candidate, voter, sum, weighted, mean, notes, votes, voted_on"@
                    + " )"@
            } else {
                "human_identifier, candidate, voter, sum, weighted, mean, notes, votes, voted_on"@
            }),
    {
        let raw = "human_identifier, candidate, voter, sum, weighted, mean, notes, votes, voted_on";
        if in_parenthesis {
            let mut out = "( ".to_owned();
            out.append(raw);
            out.append(" )");
            out
        } else {
            raw.to_owned()
        }
    }
}

impl Empty for CastBallots {
    open spec fn is_blank(&self) -> bool {
        self@ == (CastBallotsView { voting: Some(Seq::<char>::empty()), ballots: Seq::empty() })
    }

    fn empty() -> (r: CastBallots) {
        let r = CastBallots { voting: Some(String::new()), ballots: Vec::new() };
        assert(r.ballots.deep_view() =~= Seq::empty());
        r
    }
}

impl IdGenerator for CastBallots {
    open spec fn id_text(&self) -> Seq<char> {
        cast_ballots_id(self@)
    }

    open spec fn generated_id_text(&self) -> Seq<char> {
        cast_ballots_id(self@)
    }

    fn get_id(&self) -> (r: String) {
        self.generate_id()
    }

    fn generate_id(&self) -> (r: String) {
        let mut out = match &self.voting {
            Some(v) => to_lowercase(v.as_str()),
            None => to_lowercase("dummy-voting"),
        };
        if self.ballots.len() == 0 {
            out.append("-index");
        } else {
            let first = &self.ballots[0];
            assert(self.ballots.deep_view()[0] == first@);
            out.append("-");
            out.append(to_lowercase(first.voter.as_str()).as_str());
            if first.ballots.len() > 0 {
                assert(first.ballots.deep_view()[0] == first.ballots[0]@);
                out.append("-");
                out.append(to_lowercase(first.ballots[0].candidate.as_str()).as_str());
            }
        }
        out
    }
}

impl Selfaware for CastBallots {
    open spec fn type_text(&self) -> Seq<char> {
        "CBallots"@
    }

    open spec fn name_text(&self) -> Seq<char> {
        "CBallots"@
    }

    fn get_type(&self) -> (r: String) {
        "CBallots".to_owned()
    }

    fn get_name(&self) -> (r: String) {
        "CBallots".to_owned()
    }
}

/// One poll: who can be voted for, on which criteria, until when.
#[derive(Debug)]
pub struct Voting {
    pub name: String,
    pub expires_at: Option<Timestamp>,
    pub created_at: Option<Timestamp>,
    pub candidates: Vec<Candidate>,
    pub categories: Vec<Criterion>,
    pub styles: VotingStyles,
    pub invite_code: String,
}

/// What a `Voting` holds.
pub struct VotingView {
    pub name: Seq<char>,
    pub expires_at: Option<Timestamp>,
    pub created_at: Option<Timestamp>,
    pub candidates: Seq<CandidateView>,
    pub categories: Seq<CriterionView>,
    pub styles: VotingStylesView,
    pub invite_code: Seq<char>,
}

impl View for Voting {
    type V = VotingView;

    open spec fn view(&self) -> VotingView {
        VotingView {
            name: self.name@,
            expires_at: self.expires_at,
            created_at: self.created_at,
            candidates: self.candidates.deep_view(),
            categories: self.categories.deep_view(),
            styles: self.styles@,
            invite_code: self.invite_code@,
        }
    }
}

impl DeepView for Voting {
    type V = VotingView;

    open spec fn deep_view(&self) -> VotingView {
        self@
    }
}

impl Clone for Voting {
    fn clone(&self) -> (r: Self)
        ensures
            r@ == self@,
    {
        let candidates = self.candidates.clone();
        let categories = self.categories.clone();
        assert(candidates.deep_view() =~= self.candidates.deep_view());
        assert(categories.deep_view() =~= self.categories.deep_view());
        Voting {
            name: self.name.clone(),
            expires_at: self.expires_at,
            created_at: self.created_at,
            candidates,
            categories,
            styles: self.styles.clone(),
            invite_code: self.invite_code.clone(),
        }
    }
}

/// A poll of the given name that holds nothing yet and was created at
/// `created_at`, to expire at `expires_at`.
pub open spec fn blank_voting(
    name: Seq<char>,
    created_at: Timestamp,
    expires_at: Timestamp,
) -> VotingView {
    VotingView {
        name,
        expires_at: Some(expires_at),
        created_at: Some(created_at),
        candidates: Seq::empty(),
        categories: Seq::empty(),
        styles: default_styles(),
        invite_code: "access"@,
    }
}

impl Voting {
    /// A poll named `id` that holds nothing and is dated `now`.
    pub fn blank(id: &str, now: Timestamp) -> (r: Voting)
        ensures
            r@ == blank_voting(id@, now, now),
    {
        let r = Voting {
            created_at: Some(now),
            expires_at: Some(now),
            name: id.to_owned(),
            candidates: Vec::new(),
            categories: Vec::new(),
            styles: VotingStyles::default(),
            invite_code: "access".to_owned(),
        };
        assert(r.candidates.deep_view() =~= Seq::empty());
        assert(r.categories.deep_view() =~= Seq::empty());
        r
    }

    /// A poll named `id` that holds nothing and is dated by the clock.
    pub fn confident_voting(id: &str) -> (r: Voting)
        ensures
            exists|now: Timestamp| r@ == blank_voting(id@, now, now),
    {
        Voting::blank(id, Timestamp::now())
    }

    /// The names of the stored columns, in parentheses or bare.
    pub fn properties(in_parenthesis: bool) -> (r: String)
        ensures
            r@ == (if in_parenthesis {
                "( name, expires_at, created_at, candidates, categories, styles, invite_code )"@
            } else {
                "name, expires_at, created_at, candidates, categories, styles, invite_code"@
            }),
    {
        if in_parenthesis {
            "( name, expires_at, created_at, candidates, categories, styles, invite_code )".to_owned()
        } else {
            "name, expires_at, created_at, candidates, categories, styles, invite_code".to_owned()
        }
    }
}

impl Empty for Voting {
    open spec fn is_blank(&self) -> bool {
        exists|now: Timestamp| self@ == blank_voting("Empty"@, now, now)
    }

    fn empty() -> (r: Voting) {
        Voting::confident_voting("Empty")
    }
}

impl Selfaware for Voting {
    open spec fn type_text(&self) -> Seq<char> {
        "voting"@
    }

    open spec fn name_text(&self) -> Seq<char> {
        lowercase(self.name@)
    }

    fn get_type(&self) -> (r: String) {
        "voting".to_owned()
    }

    fn get_name(&self) -> (r: String) {
        to_lowercase(self.name.as_str())
    }
}

impl IdGenerator for Voting {
    open spec fn id_text(&self) -> Seq<char> {
        lowercase(self.name@)
    }

    open spec fn generated_id_text(&self) -> Seq<char> {
        lowercase(self.name@)
    }

    fn get_id(&self) -> (r: String) {
        self.generate_id()
    }

    fn generate_id(&self) -> (r: String) {
        to_lowercase(self.name.as_str())
    }
}

/// A request to open a poll: candidates and criteria are given by name.
#[derive(Debug)]
pub struct CreateVoting {
    pub name: String,
    pub expires_at: Timestamp,
    pub candidates: Vec<String>,
    pub criterias: Vec<String>,
    pub styles: Option<VotingStyles>,
    pub invite_code: String,
}

/// The polls that are known.
#[derive(Debug)]
pub struct Votings {
    pub votings: Vec<Voting>,
}

impl Votings {
    /// Reads the listing from a stored row; the row names no poll.
    pub fn from_str(_v: &str) -> (r: Votings)
        ensures
            r.votings@.len() == 0,
    {
        Votings { votings: Vec::new() }
    }
}

impl Empty for Votings {
    open spec fn is_blank(&self) -> bool {
        self.votings@.len() == 0
    }

    fn empty() -> (r: Votings) {
        Votings { votings: Vec::new() }
    }
}

impl IdGenerator for Votings {
    open spec fn id_text(&self) -> Seq<char> {
        "Votings"@
    }

    open spec fn generated_id_text(&self) -> Seq<char> {
        "Votings"@
    }

    fn get_id(&self) -> (r: String) {
        self.generate_id()
    }

    fn generate_id(&self) -> (r: String) {
        self.get_type()
    }
}

impl Selfaware for Votings {
    open spec fn type_text(&self) -> Seq<char> {
        "Votings"@
    }

    open spec fn name_text(&self) -> Seq<char> {
        "Votings"@
    }

    fn get_type(&self) -> (r: String) {
        "Votings".to_owned()
    }

    fn get_name(&self) -> (r: String) {
        "Votings".to_owned()
    }
}

/// Any one of the entities.
#[derive(Debug)]
pub enum VoteKind {
    Candidates(Candidates),
    Candidate(Candidate),
    Votings(Votings),
    Voting(Voting),
    Vote(Vote),
    Ballot(Ballot),
    KBallots(KnownBallots),
    CBallots(CastBallots),
    Criteria(Criteria),
    Criterion(Criterion),
}

/// The id under which an entity of the given kind and name is looked up:
/// the name in lower case, for candidates behind their prefix.
pub open spec fn lookup_id(name: Seq<char>, matched_type: Seq<char>) -> Seq<char> {
    if matched_type == "candidate"@ {
        "candidate_"@ + lowercase(name)
    } else {
        lowercase(name)
    }
}

/// An entity that can be looked up by name.
pub trait Fill: Empty {
    /// The id under which `name` is looked up for the kind `matched_type`.
    fn convert(name: &str, matched_type: &str) -> (r: String)
        ensures
            r@ == lookup_id(name@, matched_type@),
    {
        let lowered = to_lowercase(name);
        if same_text(matched_type, "candidate") {
            concat("candidate_", lowered.as_str())
        } else {
            lowered
        }
    }
}

impl Fill for Voting {

}

impl Fill for CastBallots {

}

impl Fill for Criterion {

}

impl Fill for Candidate {

}

impl Candidate {
    /// The id under which the candidate called `name` is stored.
    pub fn fill_id(name: &str) -> (r: String)
        ensures
            r@ == "candidate_"@ + lowercase(name@),
    {
        let lowered = to_lowercase(name);
        concat("candidate_", lowered.as_str())
    }
}


/// A name that stands for someone who does not vote.
#[derive(Debug)]
pub struct NonVoter<'r>(pub &'r str);

/// A kind of entity that has a table in the database.
pub trait Table {
    /// The column that rows are found by.
    spec fn identity_column_text() -> Seq<char>;

    /// What the table computes the id of a row from.
    spec fn id_expression_text() -> Seq<char>;

    /// The table, with its columns where rows are inserted.
    spec fn table_text(insert: bool) -> Seq<char>;

    /// The columns that hold an entity.
    spec fn columns_text() -> Seq<char>;

    /// The row that holds this entity.
    spec fn row_text(&self) -> Seq<char>;

    fn get_identity_column_name() -> (r: String)
        ensures
            r@ == Self::identity_column_text(),
    ;

    fn get_id_expression() -> (r: String)
        ensures
            r@ == Self::id_expression_text(),
    ;

    fn get_table(insert: bool) -> (r: String)
        ensures
            r@ == Self::table_text(insert),
    ;

    fn get_db_columns() -> (r: String)
        ensures
            r@ == Self::columns_text(),
    ;

    fn to_db_row(&self) -> (r: String)
        ensures
            r@ == self.row_text(),
    ;
}

/// An entity that the database can be asked for.
pub trait QueryableExt: IdGenerator + Table + Empty + Selfaware {

}

impl Table for Candidate {
    open spec fn identity_column_text() -> Seq<char> {
        "id"@
    }

    open spec fn id_expression_text() -> Seq<char> {
        "id"@
    }

    open spec fn table_text(insert: bool) -> Seq<char> {
        if insert {
            "candidates "@ + "( voter, id, label )"@
        } else {
            "candidates"@
        }
    }

    open spec fn columns_text() -> Seq<char> {
        "voter, id, label"@
    }

    open spec fn row_text(&self) -> Seq<char> {
        (if self.voter {
            "true"@
        } else {
            "false"@
        }) + DELIMITER@ + "\""@ + self.id_text() + "\""@ + DELIMITER@ + "\""@ + self.label@ + "\""@
    }

    fn get_id_expression() -> (r: String) {
        "id".to_owned()
    }

    fn get_identity_column_name() -> (r: String) {
        "id".to_owned()
    }

    fn get_table(insert: bool) -> (r: String) {
        if insert {
            concat("candidates ", Candidate::properties(true).as_str())
        } else {
            "candidates".to_owned()
        }
    }

    fn get_db_columns() -> (r: String) {
        Candidate::properties(false)
    }

    fn to_db_row(&self) -> (r: String) {
        self.values()
    }
}

impl QueryableExt for Candidate {

}

/// The candidate that a stored row holds: the first column says "true"
/// for a voter, its id is the second column, its label the third. A column
/// that the row lacks is empty.
pub open spec fn candidate_of_row(v: Seq<char>) -> CandidateView {
    let columns = split_by(v, DELIMITER@);
    CandidateView {
        voter: columns.len() > 0 && columns[0] == "true"@,
        id: Some(
            if columns.len() > 1 {
                columns[1]
            } else {
                Seq::empty()
            },
        ),
        label: if columns.len() > 2 {
            columns[2]
        } else {
            Seq::empty()
        },
    }
}

impl Candidate {
    /// Reads a candidate from a stored row.
    pub fn from_str(v: &str) -> (r: Candidate)
        ensures
            r@ == candidate_of_row(v@),
    {
        proof {
            reveal_strlit(",-o-,");
        }
        let result = split(v, DELIMITER);
        assert(result.deep_view().len() == result.len());
        let voter = if result.len() > 0 {
            assert(result.deep_view()[0] == result[0]@);
            same_text(result[0].as_str(), "true")
        } else {
            false
        };
        let id = if result.len() > 1 {
            assert(result.deep_view()[1] == result[1]@);
            result[1].clone()
        } else {
            String::new()
        };
        let label = if result.len() > 2 {
            assert(result.deep_view()[2] == result[2]@);
            result[2].clone()
        } else {
            String::new()
        };
        Candidate { voter, id: Some(id), label }
    }
}

impl Table for Criterion {
    open spec fn identity_column_text() -> Seq<char> {
        "name"@
    }

    open spec fn id_expression_text() -> Seq<char> {
        "lower(name) || '_' || min || '_' || max || '_' || ifnull(cast(weight as integer), 'none')"@
    }

    open spec fn table_text(insert: bool) -> Seq<char> {
        if insert {
            "criteria "@ + "( name, min, max, weight )"@
        } else {
            "criteria "@
        }
    }

    open spec fn columns_text() -> Seq<char> {
        "name, min, max, weight"@
    }

    open spec fn row_text(&self) -> Seq<char> {
        "\""@ + self.name@ + "\""@ + ", "@ + decimal(self.min as int) + ", "@ + decimal(
            self.max as int,
        ) + ", "@ + weight_column(self.weight)
    }

    fn get_id_expression() -> (r: String) {
        "lower(name) || '_' || min || '_' || max || '_' || ifnull(cast(weight as integer), 'none')".to_owned()
    }

    fn get_identity_column_name() -> (r: String) {
        "name".to_owned()
    }

    fn get_table(insert: bool) -> (r: String) {
        if insert {
            concat("criteria ", Criterion::properties(true).as_str())
        } else {
            "criteria ".to_owned()
        }
    }

    fn get_db_columns() -> (r: String) {
        Criterion::properties(false)
    }

    fn to_db_row(&self) -> (r: String) {
        self.values()
    }
}

impl QueryableExt for Criterion {

}

/// The whole number that the text of a weight denotes: the text of a whole
/// number, with ".0" behind it or without.
pub open spec fn weight_of_text(text: Seq<char>) -> Option<i32> {
    let whole = if ".0"@.is_suffix_of(text) {
        text.take(text.len() - ".0"@.len())
    } else {
        text
    };
    match integer_of(whole) {
        Some(n) => if -0x8000_0000 <= n <= 0x7fff_ffff {
            Some(n as i32)
        } else {
            None
        },
        None => None,
    }
}

/// The small number that a text denotes, if it denotes one.
pub open spec fn small_of_text(text: Seq<char>) -> Option<i8> {
    match integer_of(text) {
        Some(n) => if -128 <= n <= 127 {
            Some(n as i8)
        } else {
            None
        },
        None => None,
    }
}

/// The whole number that the text of a weight denotes.
pub fn parse_weight(text: &str) -> (r: Option<i32>)
    ensures
        r == weight_of_text(text@),
{
    let whole = match crate::text::strip_suffix(text, ".0") {
        Some(w) => w,
        None => text.to_owned(),
    };
    match parse_integer(whole.as_str()) {
        Some(n) => {
            if -0x8000_0000 <= n && n <= 0x7fff_ffff {
                Some(n as i32)
            } else {
                None
            }
        },
        None => None,
    }
}

/// The small number that a text denotes, if it denotes one.
pub fn parse_small(text: &str) -> (r: Option<i8>)
    ensures
        r == small_of_text(text@),
{
    match parse_integer(text) {
        Some(n) => {
            if -128 <= n && n <= 127 {
                Some(n as i8)
            } else {
                None
            }
        },
        None => None,
    }
}

/// The weight that a column holds: none for "NULL", else the whole number
/// that the text denotes. `None` where the text is neither.
pub open spec fn weight_of_column(text: Seq<char>) -> Option<Option<i32>> {
    if text == "NULL"@ {
        Some(None)
    } else {
        match weight_of_text(text) {
            Some(w) => Some(Some(w)),
            None => None,
        }
    }
}

/// The criterion that a stored row holds: its name, its range and its
/// weight, each without the white space around it. `None` where the row
/// has fewer than four columns or a number cannot be read.
pub open spec fn criterion_of_row(v: Seq<char>) -> Option<CriterionView> {
    let columns = split_by(v, DELIMITER@);
    if columns.len() < 4 {
        None
    } else {
        match (
            small_of_text(trimmed(columns[1])),
            small_of_text(trimmed(columns[2])),
            weight_of_column(trimmed(columns[3])),
        ) {
            (Some(min), Some(max), Some(weight)) => Some(
                CriterionView { name: trimmed(columns[0]), min, max, weight },
            ),
            _ => None,
        }
    }
}

impl Criterion {
    /// Reads a criterion from a stored row.
    pub fn from_str(v: &str) -> (r: Result<Criterion, FromErrorKind>)
        ensures
            (match criterion_of_row(v@) {
                Some(c) => r is Ok && r->Ok_0@ == c,
                None => r is Err && r->Err_0@ == FromErrorView::Serialize(
                    "Criterion serialize failed."@,
                ),
            }),
    {
        proof {
            reveal_strlit(",-o-,");
        }
        let result = split(v, DELIMITER);
        assert(result.deep_view().len() == result.len());
        if result.len() < 4 {
            return Err(FromErrorKind::Serialize("Criterion serialize failed.".to_owned()));
        }
        assert(forall|k: int| 0 <= k < 4 ==> #[trigger] result.deep_view()[k] == result[k]@);
        let min = parse_small(trim(result[1].as_str()).as_str());
        let max = parse_small(trim(result[2].as_str()).as_str());
        let column = trim(result[3].as_str());
        let weight = if same_text(column.as_str(), "NULL") {
            Some(None)
        } else {
            match parse_weight(column.as_str()) {
                Some(w) => Some(Some(w)),
                None => None,
            }
        };
        match (min, max, weight) {
            (Some(min), Some(max), Some(weight)) => Ok(
                Criterion { name: trim(result[0].as_str()), min, max, weight },
            ),
            _ => Err(FromErrorKind::Serialize("Criterion serialize failed.".to_owned())),
        }
    }
}

impl CriterionRow {
    /// The stored row: as that of the criterion.
    pub fn values(&self) -> (r: String)
        ensures
            r@ == self.row_text(),
    {
        let mut out = "\"".to_owned();
        out.append(self.name.as_str());
        out.append("\"");
        out.append(", ");
        out.append(decimal_text(self.min as i128).as_str());
        out.append(", ");
        out.append(decimal_text(self.max as i128).as_str());
        out.append(", ");
        match self.weight {
            Some(w) => out.append(decimal_text(w as i128).as_str()),
            None => out.append("NULL"),
        }
        out
    }
}

impl Table for CriterionRow {
    open spec fn identity_column_text() -> Seq<char> {
        "name"@
    }

    open spec fn id_expression_text() -> Seq<char> {
        "lower(name) || '_' || min || '_' || max || '_' || ifnull(cast(weight as integer), 'none')"@
    }

    open spec fn table_text(insert: bool) -> Seq<char> {
        Criterion::table_text(insert)
    }

    open spec fn columns_text() -> Seq<char> {
        "name, min, max, weight"@
    }

    open spec fn row_text(&self) -> Seq<char> {
        "\""@ + self.name@ + "\""@ + ", "@ + decimal(self.min as int) + ", "@ + decimal(
            self.max as int,
        ) + ", "@ + weight_column(self.weight)
    }

    fn get_id_expression() -> (r: String) {
        "lower(name) || '_' || min || '_' || max || '_' || ifnull(cast(weight as integer), 'none')".to_owned()
    }

    fn get_identity_column_name() -> (r: String) {
        Criterion::get_identity_column_name()
    }

    fn get_table(insert: bool) -> (r: String) {
        Criterion::get_table(insert)
    }

    fn get_db_columns() -> (r: String) {
        Criterion::properties(false)
    }

    fn to_db_row(&self) -> (r: String) {
        self.values()
    }
}

impl Criteria {
    /// The stored rows of the criteria, with the column separator between
    /// them.
    pub fn values(&self) -> (r: String)
        ensures
            r@ == self.row_text(),
    {
        let mut rows: Vec<String> = Vec::new();
        let mut i: usize = 0;
        while i < self.criterias.len()
            invariant
                i <= self.criterias.len(),
                rows.deep_view() == self.criterias.deep_view().take(i as int).map_values(
                    |c: CriterionView| criterion_row(c),
                ),
            decreases self.criterias.len() - i,
        {
            let ghost before = rows.deep_view();
            rows.push(self.criterias[i].to_db_row());
            assert(rows.deep_view() =~= before.push(criterion_row(self.criterias[i as int]@)));
            assert(self.criterias.deep_view().take(i + 1).map_values(
                |c: CriterionView| criterion_row(c),
            ) =~= before.push(criterion_row(self.criterias[i as int]@)));
            i += 1;
        }
        assert(self.criterias.deep_view().take(self.criterias.len() as int)
            =~= self.criterias.deep_view());
        join_with(&rows, DELIMITER)
    }

    /// Reads the listing from a stored row; the row names no criterion.
    pub fn from_str(_v: &str) -> (r: Criteria)
        ensures
            r.criterias@.len() == 0,
    {
        Criteria { criterias: Vec::new() }
    }
}

/// The stored row of a criterion.
pub open spec fn criterion_row(c: CriterionView) -> Seq<char> {
    "\""@ + c.name + "\""@ + ", "@ + decimal(c.min as int) + ", "@ + decimal(c.max as int) + ", "@
        + weight_column(c.weight)
}

impl Table for Criteria {
    open spec fn identity_column_text() -> Seq<char> {
        "name"@
    }

    open spec fn id_expression_text() -> Seq<char> {
        "lower(name) || '_' || min || '_' || max || '_' || ifnull(cast(weight as integer), 'none')"@
    }

    open spec fn table_text(insert: bool) -> Seq<char> {
        Criterion::table_text(insert)
    }

    open spec fn columns_text() -> Seq<char> {
        "name, min, max, weight"@
    }

    open spec fn row_text(&self) -> Seq<char> {
        joined(self.criterias.deep_view().map_values(|c: CriterionView| criterion_row(c)), DELIMITER@)
    }

    fn get_id_expression() -> (r: String) {
        "lower(name) || '_' || min || '_' || max || '_' || ifnull(cast(weight as integer), 'none')".to_owned()
    }

    fn get_identity_column_name() -> (r: String) {
        "name".to_owned()
    }

    fn get_table(insert: bool) -> (r: String) {
        Criterion::get_table(insert)
    }

    fn get_db_columns() -> (r: String) {
        Criterion::properties(false)
    }

    fn to_db_row(&self) -> (r: String) {
        self.values()
    }
}

impl QueryableExt for Criteria {

}

impl Table for CastBallots {
    open spec fn identity_column_text() -> Seq<char> {
        "human_identifier"@
    }

    open spec fn id_expression_text() -> Seq<char> {
        "human_identifier"@
    }

    open spec fn table_text(insert: bool) -> Seq<char> {
        if insert {
            "ballots"@ + ("( "@
                + "human_identifier, candidate, voter, sum, weighted, mean, notes, votes, voted_on"@
                + " )"@)
        } else {
            "ballots"@
        }
    }

    open spec fn columns_text() -> Seq<char> {
        "human_identifier, candidate, voter, sum, weighted, mean, notes, votes, voted_on"@
    }

    open spec fn row_text(&self) -> Seq<char> {
        Seq::empty()
    }

    fn get_id_expression() -> (r: String) {
        "human_identifier".to_owned()
    }

    fn get_identity_column_name() -> (r: String) {
        "human_identifier".to_owned()
    }

    fn get_table(insert: bool) -> (r: String) {
        if insert {
            concat("ballots", CastBallots::properties(true).as_str())
        } else {
            "ballots".to_owned()
        }
    }

    fn get_db_columns() -> (r: String) {
        CastBallots::properties(false)
    }

    fn to_db_row(&self) -> (r: String) {
        String::new()
    }
}

impl QueryableExt for CastBallots {

}

/// A group of emojis under one name.
#[derive(Debug)]
pub struct EmojiCategory {
    pub name: String,
    pub emojis: Vec<String>,
}

impl EmojiCategory {
    /// The emojis of the group.
    pub open spec fn emoji_texts(&self) -> Seq<Seq<char>> {
        self.emojis.deep_view()
    }

    pub fn new(name: &str, emojis: &Vec<String>) -> (r: Self)
        ensures
            r.name@ == name@,
            r.emoji_texts() == emojis.deep_view(),
    {
        let copy = emojis.clone();
        assert(copy.deep_view() =~= emojis.deep_view());
        Self { name: name.to_owned(), emojis: copy }
    }

    pub fn get_identity_column_name() -> (r: String)
        ensures
            r@ == "name"@,
    {
        "name".to_owned()
    }

    /// The names of the stored columns, in parentheses or bare.
    pub fn properties(in_parenthesis: bool) -> (r: String)
        ensures
            r@ == (if in_parenthesis {
                "( name, emojis )"@
            } else {
                "name, emojis"@
            }),
    {
        if in_parenthesis {
            "( name, emojis )".to_owned()
        } else {
            "name, emojis".to_owned()
        }
    }

    /// The stored row: the name and the emojis.
    pub fn values(&self) -> (r: String)
        ensures
            r@ == emoji_row(self.name@, self.emoji_texts()),
    {
        let emojis = join_with(&self.emojis, DELIMITER);
        accumulate_strings_with_delimiter(self.name.as_str(), emojis.as_str())
    }
}

/// The stored row of a group of emojis.
pub open spec fn emoji_row(name: Seq<char>, emojis: Seq<Seq<char>>) -> Seq<char> {
    name + DELIMITER@ + joined(emojis, DELIMITER@)
}

/// The groups of emojis that can be voted with.
#[derive(Debug)]
pub struct EmojiCategories {
    pub emojis: Vec<EmojiCategory>,
}

/// The stored rows of groups of emojis, in their order.
pub open spec fn emoji_rows(groups: Seq<EmojiCategory>) -> Seq<Seq<char>> {
    groups.map_values(|e: EmojiCategory| emoji_row(e.name@, e.emoji_texts()))
}

impl EmojiCategories {
    /// The stored rows of the groups, with the column separator between
    /// them.
    pub fn values(&self) -> (r: String)
        ensures
            r@ == joined(emoji_rows(self.emojis@), DELIMITER@),
    {
        let mut rows: Vec<String> = Vec::new();
        let mut i: usize = 0;
        while i < self.emojis.len()
            invariant
                i <= self.emojis.len(),
                rows.deep_view() == emoji_rows(self.emojis@.take(i as int)),
            decreases self.emojis.len() - i,
        {
            let ghost before = rows.deep_view();
            let ghost row = emoji_row(self.emojis[i as int].name@, self.emojis[i as int].emoji_texts());
            rows.push(self.emojis[i].values());
            assert(rows.deep_view() =~= before.push(row));
            assert(emoji_rows(self.emojis@.take(i + 1)) =~= before.push(row));
            i += 1;
        }
        assert(self.emojis@.take(self.emojis.len() as int) =~= self.emojis@);
        join_with(&rows, DELIMITER)
    }

    /// Reads the groups from a stored row; the row names none.
    pub fn from_str(_v: &str) -> (r: EmojiCategories)
        ensures
            r.emojis@.len() == 0,
    {
        EmojiCategories { emojis: Vec::new() }
    }
}

impl Empty for EmojiCategories {
    open spec fn is_blank(&self) -> bool {
        self.emojis@.len() == 0
    }

    fn empty() -> (r: EmojiCategories) {
        EmojiCategories { emojis: Vec::new() }
    }
}

impl IdGenerator for EmojiCategories {
    open spec fn id_text(&self) -> Seq<char> {
        "emojis"@
    }

    open spec fn generated_id_text(&self) -> Seq<char> {
        "emojis"@
    }

    fn get_id(&self) -> (r: String) {
        self.generate_id()
    }

    fn generate_id(&self) -> (r: String) {
        "emojis".to_owned()
    }
}

impl Selfaware for EmojiCategories {
    open spec fn type_text(&self) -> Seq<char> {
        "emojis"@
    }

    open spec fn name_text(&self) -> Seq<char> {
        "emojis"@
    }

    fn get_type(&self) -> (r: String) {
        "emojis".to_owned()
    }

    fn get_name(&self) -> (r: String) {
        "emojis".to_owned()
    }
}

impl Table for EmojiCategories {
    open spec fn identity_column_text() -> Seq<char> {
        "name"@
    }

    open spec fn id_expression_text() -> Seq<char> {
        "name"@
    }

    open spec fn table_text(insert: bool) -> Seq<char> {
        if insert {
            "emojis"@ + "( name, emojis )"@
        } else {
            "emojis"@
        }
    }

    open spec fn columns_text() -> Seq<char> {
        "name, emojis"@
    }

    open spec fn row_text(&self) -> Seq<char> {
        joined(emoji_rows(self.emojis@), DELIMITER@)
    }

    fn get_id_expression() -> (r: String) {
        "name".to_owned()
    }

    fn get_identity_column_name() -> (r: String) {
        EmojiCategory::get_identity_column_name()
    }

    fn get_table(insert: bool) -> (r: String) {
        if insert {
            concat("emojis", EmojiCategory::properties(true).as_str())
        } else {
            "emojis".to_owned()
        }
    }

    fn get_db_columns() -> (r: String) {
        EmojiCategory::properties(false)
    }

    fn to_db_row(&self) -> (r: String) {
        self.values()
    }
}

impl QueryableExt for EmojiCategories {

}

/// A poll as a database row holds it: candidates, criteria and styles are
/// kept as the texts of the row's columns.
#[derive(Debug)]
pub struct VotingTable {
    pub name: String,
    pub expires_at: Timestamp,
    pub created_at: Timestamp,
    pub candidates: String,
    pub categories: String,
    pub styles: String,
    pub invite_code: String,
}

/// What a `VotingTable` holds.
pub struct VotingTableView {
    pub name: Seq<char>,
    pub expires_at: Timestamp,
    pub created_at: Timestamp,
    pub candidates: Seq<char>,
    pub categories: Seq<char>,
    pub styles: Seq<char>,
    pub invite_code: Seq<char>,
}

impl View for VotingTable {
    type V = VotingTableView;

    open spec fn view(&self) -> VotingTableView {
        VotingTableView {
            name: self.name@,
            expires_at: self.expires_at,
            created_at: self.created_at,
            candidates: self.candidates@,
            categories: self.categories@,
            styles: self.styles@,
            invite_code: self.invite_code@,
        }
    }
}

/// `text` as a further value of a row.
pub open spec fn further_value(text: Seq<char>) -> Seq<char> {
    ", '"@ + text + "'"@
}

/// The stored row of a poll: its name in double quotes, then the dates and
/// the other columns in single quotes. `expires` and `created` are the
/// texts of the dates.
pub open spec fn voting_row(v: VotingTableView, expires: Seq<char>, created: Seq<char>) -> Seq<
    char,
> {
    "\""@ + v.name + "\""@ + further_value(expires) + further_value(created) + further_value(
        v.candidates,
    ) + further_value(v.categories) + further_value(v.styles) + further_value(v.invite_code)
}

/// The poll that a stored row holds. `None` where the row has fewer than
/// seven columns or a date cannot be read.
pub open spec fn voting_of_row(v: Seq<char>) -> Option<VotingTableView> {
    let columns = split_by(v, DELIMITER@);
    if columns.len() < 7 {
        None
    } else {
        match (timestamp_of(columns[1]), timestamp_of(columns[2])) {
            (Some(expires_at), Some(created_at)) => Some(
                VotingTableView {
                    name: columns[0],
                    expires_at,
                    created_at,
                    candidates: columns[3],
                    categories: columns[4],
                    styles: columns[5],
                    invite_code: columns[6],
                },
            ),
            _ => None,
        }
    }
}

/// Appends `text` as a further value of a row.
fn push_further(out: &mut String, text: &str)
    ensures
        final(out)@ == old(out)@ + further_value(text@),
{
    out.append(", '");
    out.append(text);
    out.append("'");
}

impl VotingTable {
    /// The name of the poll, in lower case.
    pub fn get_name(&self) -> (r: String)
        ensures
            r@ == lowercase(self.name@),
    {
        to_lowercase(self.name.as_str())
    }

    /// The names of the stored columns, in parentheses or bare.
    pub fn properties(in_parenthesis: bool) -> (r: String)
        ensures
            r@ == (if in_parenthesis {
                "( name, expires_at, created_at, candidates, categories, styles, invite_code )"@
            } else {
                "name, expires_at, created_at, candidates, categories, styles, invite_code"@
            }),
    {
        Voting::properties(in_parenthesis)
    }

    /// The stored row of the poll. `None` where the calendar has no text
    /// for one of its dates.
    pub fn values(&self) -> (r: Option<String>)
        ensures
            (match (
                timestamp_text(self.expires_at.secs, self.expires_at.nanos),
                timestamp_text(self.created_at.secs, self.created_at.nanos),
            ) {
                (Some(expires), Some(created)) => r is Some && r->0@ == voting_row(
                    self@,
                    expires,
                    created,
                ),
                _ => r is None,
            }),
    {
        let expires = match self.expires_at.to_text() {
            Some(t) => t,
            None => {
                return None;
            },
        };
        let created = match self.created_at.to_text() {
            Some(t) => t,
            None => {
                return None;
            },
        };
        let mut out = "\"".to_owned();
        out.append(self.name.as_str());
        out.append("\"");
        push_further(&mut out, expires.as_str());
        push_further(&mut out, created.as_str());
        push_further(&mut out, self.candidates.as_str());
        push_further(&mut out, self.categories.as_str());
        push_further(&mut out, self.styles.as_str());
        push_further(&mut out, self.invite_code.as_str());
        Some(out)
    }

    /// Reads a poll from a stored row.
    pub fn from_str(v: &str) -> (r: Result<VotingTable, FromErrorKind>)
        ensures
            (match voting_of_row(v@) {
                Some(t) => r is Ok && r->Ok_0@ == t,
                None => r is Err && r->Err_0@ == FromErrorView::Serialize(
                    "Voting serialize failed."@,
                ),
            }),
    {
        proof {
            reveal_strlit(",-o-,");
        }
        let result = split(v, DELIMITER);
        assert(result.deep_view().len() == result.len());
        if result.len() >= 7 {
            assert(forall|k: int| 0 <= k < 7 ==> #[trigger] result.deep_view()[k] == result[k]@);
            let expires_at = Timestamp::parse(result[1].as_str());
            let created_at = Timestamp::parse(result[2].as_str());
            match (expires_at, created_at) {
                (Some(expires_at), Some(created_at)) => Ok(
                    VotingTable {
                        name: result[0].clone(),
                        expires_at,
                        created_at,
                        candidates: result[3].clone(),
                        categories: result[4].clone(),
                        styles: result[5].clone(),
                        invite_code: result[6].clone(),
                    },
                ),
                _ => Err(FromErrorKind::Serialize("Voting serialize failed.".to_owned())),
            }
        } else {
            Err(FromErrorKind::Serialize("Voting serialize failed.".to_owned()))
        }
    }

    /// The row for a poll. `candidates`, `categories` and `styles` are the
    /// texts of what the poll holds of each. `None` where the poll lacks a
    /// date.
    pub fn from(v: &Voting, candidates: String, categories: String, styles: String) -> (r: Option<
        VotingTable,
    >)
        ensures
            r is Some <==> v.expires_at is Some && v.created_at is Some,
            r is Some ==> r->0@ == (VotingTableView {
                name: v.name@,
                expires_at: v.expires_at->0,
                created_at: v.created_at->0,
                candidates: candidates@,
                categories: categories@,
                styles: styles@,
                invite_code: v.invite_code@,
            }),
    {
        match (v.expires_at, v.created_at) {
            (Some(expires_at), Some(created_at)) => Some(
                VotingTable {
                    name: v.name.clone(),
                    expires_at,
                    created_at,
                    candidates,
                    categories,
                    styles,
                    invite_code: v.invite_code.clone(),
                },
            ),
            _ => None,
        }
    }
}

impl VotingTable {
    /// A row without content, dated `now`.
    pub fn blank(now: Timestamp) -> (r: Self)
        ensures
            r@ == (VotingTableView {
                name: "Empty"@,
                expires_at: now,
                created_at: now,
                candidates: "[]"@,
                categories: "[]"@,
                styles: "{}"@,
                invite_code: "access"@,
            }),
    {
        VotingTable {
            name: "Empty".to_owned(),
            expires_at: now,
            created_at: now,
            candidates: "[]".to_owned(),
            categories: "[]".to_owned(),
            styles: "{}".to_owned(),
            invite_code: "access".to_owned(),
        }
    }
}

impl Empty for VotingTable {
    open spec fn is_blank(&self) -> bool {
        exists|now: Timestamp|
            self@ == (VotingTableView {
                name: "Empty"@,
                expires_at: now,
                created_at: now,
                candidates: "[]"@,
                categories: "[]"@,
                styles: "{}"@,
                invite_code: "access"@,
            })
    }

    fn empty() -> (r: Self) {
        VotingTable::blank(Timestamp::now())
    }
}

impl IdGenerator for VotingTable {
    open spec fn id_text(&self) -> Seq<char> {
        lowercase(self.name@)
    }

    open spec fn generated_id_text(&self) -> Seq<char> {
        lowercase(self.name@)
    }

    fn get_id(&self) -> (r: String) {
        self.generate_id()
    }

    fn generate_id(&self) -> (r: String) {
        to_lowercase(self.name.as_str())
    }
}

impl Selfaware for VotingTable {
    open spec fn type_text(&self) -> Seq<char> {
        "voting"@
    }

    open spec fn name_text(&self) -> Seq<char> {
        lowercase(self.name@)
    }

    fn get_type(&self) -> (r: String) {
        "voting".to_owned()
    }

    fn get_name(&self) -> (r: String) {
        to_lowercase(self.name.as_str())
    }
}

impl Table for VotingTable {
    open spec fn identity_column_text() -> Seq<char> {
        "name"@
    }

    open spec fn id_expression_text() -> Seq<char> {
        "lower(name)"@
    }

    open spec fn table_text(insert: bool) -> Seq<char> {
        "votings"@
    }

    open spec fn columns_text() -> Seq<char> {
        "name, expires_at, created_at, candidates, categories, styles, invite_code"@
    }

    open spec fn row_text(&self) -> Seq<char> {
        match (
            timestamp_text(self.expires_at.secs, self.expires_at.nanos),
            timestamp_text(self.created_at.secs, self.created_at.nanos),
        ) {
            (Some(expires), Some(created)) => voting_row(self@, expires, created),
            _ => Seq::empty(),
        }
    }

    fn get_id_expression() -> (r: String) {
        "lower(name)".to_owned()
    }

    fn get_identity_column_name() -> (r: String) {
        "name".to_owned()
    }

    fn get_table(_insert: bool) -> (r: String) {
        "votings".to_owned()
    }

    fn get_db_columns() -> (r: String) {
        Voting::properties(false)
    }

    /// The stored row of the poll; nothing where the calendar has no text
    /// for one of its dates.
    fn to_db_row(&self) -> (r: String) {
        match self.values() {
            Some(row) => row,
            None => String::new(),
        }
    }
}

impl QueryableExt for VotingTable {

}

impl Voting {
    /// The poll that a database row holds. `candidates`, `categories` and
    /// `styles` are what the texts of the row's columns hold, or `None`
    /// where a text holds nothing of the kind; the poll then has no
    /// candidates, no criteria, or the default styles.
    pub fn from(
        v: VotingTable,
        candidates: Option<Vec<Candidate>>,
        categories: Option<Vec<Criterion>>,
        styles: Option<VotingStyles>,
    ) -> (r: Voting)
        ensures
            r@ == (VotingView {
                name: v.name@,
                expires_at: Some(v.expires_at),
                created_at: Some(v.created_at),
                candidates: match candidates {
                    Some(c) => c.deep_view(),
                    None => Seq::empty(),
                },
                categories: match categories {
                    Some(c) => c.deep_view(),
                    None => Seq::empty(),
                },
                styles: match styles {
                    Some(s) => s@,
                    None => default_styles(),
                },
                invite_code: v.invite_code@,
            }),
    {
        let candidates = match candidates {
            Some(c) => c,
            None => {
                let none: Vec<Candidate> = Vec::new();
                assert(none.deep_view() =~= Seq::<CandidateView>::empty());
                none
            },
        };
        let categories = match categories {
            Some(c) => c,
            None => {
                let none: Vec<Criterion> = Vec::new();
                assert(none.deep_view() =~= Seq::<CriterionView>::empty());
                none
            },
        };
        let styles = match styles {
            Some(s) => s,
            None => VotingStyles::default(),
        };
        Voting {
            name: v.name,
            expires_at: Some(v.expires_at),
            created_at: Some(v.created_at),
            candidates,
            categories,
            styles,
            invite_code: v.invite_code,
        }
    }
}


/// A column without a comma, followed by the column separator, is split
/// off as one piece.
pub proof fn lemma_split_column(col: Seq<char>, rest: Seq<char>, piece: Seq<char>)
    requires
        !col.contains(','),
    ensures
        split_from(col + DELIMITER@ + rest, DELIMITER@, piece) == seq![piece + col] + split_from(
            rest,
            DELIMITER@,
            Seq::empty(),
        ),
    decreases col.len(),
{
    reveal_strlit(",-o-,");
    let whole = col + DELIMITER@ + rest;
    if col.len() == 0 {
        assert(DELIMITER@.is_prefix_of(whole)) by {
            assert(whole.subrange(0, DELIMITER@.len() as int) =~= DELIMITER@);
        }
        assert(whole.skip(DELIMITER@.len() as int) =~= rest);
        assert(piece + col =~= piece);
    } else {
        assert(whole[0] == col[0]);
        assert(col[0] != ',');
        assert(!DELIMITER@.is_prefix_of(whole)) by {
            if DELIMITER@.is_prefix_of(whole) {
                assert(whole.subrange(0, DELIMITER@.len() as int)[0] == DELIMITER@[0]);
            }
        }
        assert forall|i: int| 0 <= i < col.skip(1).len() implies col.skip(1)[i] != ',' by {
            assert(col.skip(1)[i] == col[i + 1]);
        }
        assert(whole.skip(1) =~= col.skip(1) + DELIMITER@ + rest);
        lemma_split_column(col.skip(1), rest, piece.push(col[0]));
        assert(piece.push(col[0]) + col.skip(1) =~= piece + col);
    }
}

/// The row that is read for a candidate from its table: the role, the id
/// and the label, each followed by the column separator.
pub open spec fn candidate_row(c: CandidateView) -> Seq<char> {
    (if c.voter {
        "true"@
    } else {
        "false"@
    }) + DELIMITER@ + (match c.id {
        Some(id) => id,
        None => candidate_id(c.voter, c.label),
    }) + DELIMITER@ + c.label + DELIMITER@
}

/// Three columns without commas, each followed by the column separator,
/// are split into themselves and an empty rest.
pub proof fn lemma_three_columns(a: Seq<char>, b: Seq<char>, c: Seq<char>)
    requires
        !a.contains(','),
        !b.contains(','),
        !c.contains(','),
    ensures
        split_by(a + DELIMITER@ + b + DELIMITER@ + c + DELIMITER@, DELIMITER@) == seq![
            a,
            b,
            c,
            Seq::<char>::empty(),
        ],
{
    reveal_strlit(",-o-,");
    let sep = DELIMITER@;
    let none = Seq::<char>::empty();
    let rest2 = none;
    let rest1 = c + sep + rest2;
    let rest0 = b + sep + rest1;
    let row = a + sep + b + sep + c + sep;
    assert(row =~= a + sep + rest0);
    lemma_split_column(a, rest0, none);
    lemma_split_column(b, rest1, none);
    lemma_split_column(c, rest2, none);
    assert(none + a =~= a);
    assert(none + b =~= b);
    assert(none + c =~= c);
    assert(split_from(rest2, sep, none) =~= seq![none]);
    assert(split_by(row, sep) =~= seq![a, b, c, none]);
}

/// A candidate that was stored under its id is read back from its row as
/// it is, where neither its id nor its label holds a comma.
pub proof fn lemma_candidate_row_reads_back(c: CandidateView)
    requires
        c.id is Some,
        !c.id->0.contains(','),
        !c.label.contains(','),
    ensures
        candidate_of_row(candidate_row(c)) == c,
{
    reveal_strlit("true");
    reveal_strlit("false");
    let flag = if c.voter {
        "true"@
    } else {
        "false"@
    };
    assert("false"@ != "true"@) by {
        assert("false"@.len() != "true"@.len());
    }
    lemma_three_columns(flag, c.id->0, c.label);
}

/// The row that is read for a criterion from its table: the name, the
/// range and the weight, each followed by the column separator.
pub open spec fn criterion_read_row(c: CriterionView) -> Seq<char> {
    c.name + DELIMITER@ + decimal(c.min as int) + DELIMITER@ + decimal(c.max as int) + DELIMITER@
        + weight_column(c.weight) + DELIMITER@
}

/// Four columns without commas, each followed by the column separator,
/// are split into themselves and an empty rest.
pub proof fn lemma_four_columns(a: Seq<char>, b: Seq<char>, c: Seq<char>, d: Seq<char>)
    requires
        !a.contains(','),
        !b.contains(','),
        !c.contains(','),
        !d.contains(','),
    ensures
        split_by(a + DELIMITER@ + b + DELIMITER@ + c + DELIMITER@ + d + DELIMITER@, DELIMITER@)
            == seq![a, b, c, d, Seq::<char>::empty()],
{
    reveal_strlit(",-o-,");
    let sep = DELIMITER@;
    let none = Seq::<char>::empty();
    let rest3 = none;
    let rest2 = d + sep + rest3;
    let rest1 = c + sep + rest2;
    let rest0 = b + sep + rest1;
    let row = a + sep + b + sep + c + sep + d + sep;
    assert(row =~= a + sep + rest0);
    lemma_split_column(a, rest0, none);
    lemma_split_column(b, rest1, none);
    lemma_split_column(c, rest2, none);
    lemma_split_column(d, rest3, none);
    assert(none + a =~= a);
    assert(none + b =~= b);
    assert(none + c =~= c);
    assert(none + d =~= d);
    assert(split_from(rest3, sep, none) =~= seq![none]);
    assert(split_by(row, sep) =~= seq![a, b, c, d, none]);
}

/// The text of a small number holds no comma and is read back as the
/// number.
pub proof fn lemma_small_reads_back(n: i8)
    ensures
        !decimal(n as int).contains(','),
        small_of_text(trimmed(decimal(n as int))) == Some(n),
{
    crate::text::lemma_decimal_chars(n as int);
    crate::text::lemma_decimal_is_trimmed(n as int);
    crate::text::lemma_decimal_reads_back(n as int);
}

/// The text of a weight column holds no comma and is read back as the
/// weight, or as no weight.
pub proof fn lemma_weight_column_reads_back(weight: Option<i32>)
    ensures
        !weight_column(weight).contains(','),
        weight_of_column(trimmed(weight_column(weight))) == Some(weight),
{
    reveal_strlit("NULL");
    reveal_strlit(".0");
    match weight {
        Some(w) => {
            crate::text::lemma_decimal_chars(w as int);
            crate::text::lemma_decimal_is_trimmed(w as int);
            crate::text::lemma_decimal_reads_back(w as int);
            let text = decimal(w as int);
            assert(text != "NULL"@) by {
                assert(text[0] == '-' || crate::text::digit_value(text[0]) is Some);
            }
            assert(!".0"@.is_suffix_of(text)) by {
                if ".0"@.is_suffix_of(text) {
                    let tail = text.subrange(text.len() - 2, text.len() as int);
                    assert(tail[0] == ".0"@[0]);
                    assert(text[text.len() - 2] == '.');
                }
            }
        },
        None => {
            let text = weight_column(weight);
            assert(text[0] == 'N');
            assert(text.last() == 'L');
            assert(trimmed(text) == text);
        },
    }
}

/// A criterion is read back from its row as it is, where its name holds no
/// comma and has no white space around it.
pub proof fn lemma_criterion_row_reads_back(c: CriterionView)
    requires
        !c.name.contains(','),
        trimmed(c.name) == c.name,
    ensures
        criterion_of_row(criterion_read_row(c)) == Some(c),
{
    lemma_small_reads_back(c.min);
    lemma_small_reads_back(c.max);
    lemma_weight_column_reads_back(c.weight);
    lemma_four_columns(
        c.name,
        decimal(c.min as int),
        decimal(c.max as int),
        weight_column(c.weight),
    );
}

} // verus!
