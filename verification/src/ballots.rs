//! The tally: what each cast ballot sums up to, and the table of results
//! with its orderings and filters.
use vstd::prelude::*;
use crate::common::{
    label_of_id, Ballot, BallotView, Candidate, CandidateView, CastBallots, CastBallotsView,
    Criterion, CriterionView, Empty, IdGenerator, KnownBallots, KnownBallotsView, QueryableExt,
    Selfaware, Table as VVTable, Vote, VoteView, Voting, DELIMITER,
};
use crate::error::{FromErrorKind, FromErrorView, VoteErrorKind, VoteErrorView};
use crate::routes::{refusal, status_of, Refusal, Status, API_BALLOTS};
use crate::text::{
    concat, decimal, decimal_text, integer_of, lowercase, parse_integer, same_text,
    split, split_by, starts_with, strip_suffix, to_lowercase,
};
use crate::time::{not_after, timestamp_of, timestamp_text, Timestamp};
use crate::validator::{compare_pattern_file_names, starts_alike};

verus! {

/// Why cast ballots could not be tallied.
#[derive(Clone, Copy, Debug, PartialEq, Eq, Structural)]
pub enum TallyError {
    /// A vote names a criterion that the poll does not have.
    UnknownCriterion,
    /// A ballot carries no date.
    MissingDate,
    /// Cast ballots do not say which poll they belong to.
    MissingVoting,
}

/// A mean as the fraction it is: the sum of the points over their number.
#[derive(Clone, Copy, Debug, PartialEq, Eq, Structural)]
pub struct Mean {
    pub total: i128,
    pub count: usize,
}

/// The sum of the points of `votes`.
pub open spec fn points_sum(votes: Seq<VoteView>) -> int
    decreases votes.len(),
{
    if votes.len() == 0 {
        0
    } else {
        points_sum(votes.drop_last()) + votes.last().point
    }
}

/// The first of `categories` that is called `name`.
pub open spec fn find_criterion(categories: Seq<CriterionView>, name: Seq<char>) -> Option<
    CriterionView,
>
    decreases categories.len(),
{
    if categories.len() == 0 {
        None
    } else if categories[0].name == name {
        Some(categories[0])
    } else {
        find_criterion(categories.skip(1), name)
    }
}

/// How many tenths a point counts on this criterion: its weight, or ten
/// tenths where it has none.
pub open spec fn factor(c: CriterionView) -> int {
    match c.weight {
        Some(w) => w as int,
        None => 10,
    }
}

/// What a point on this criterion adds to the weighted score, in tenths.
pub open spec fn contribution(point: i8, c: CriterionView) -> int {
    point * factor(c)
}

/// Whether each of `votes` names one of `categories`.
pub open spec fn all_known(votes: Seq<VoteView>, categories: Seq<CriterionView>) -> bool {
    forall|i: int|
        0 <= i < votes.len() ==> find_criterion(categories, (#[trigger] votes[i]).name) is Some
}

/// The weighted score of `votes` in tenths: each point times the factor of
/// its criterion. A vote on no criterion adds nothing.
pub open spec fn weighted_sum(votes: Seq<VoteView>, categories: Seq<CriterionView>) -> int
    decreases votes.len(),
{
    if votes.len() == 0 {
        0
    } else {
        weighted_sum(votes.drop_last(), categories) + (match find_criterion(
            categories,
            votes.last().name,
        ) {
            Some(c) => contribution(votes.last().point, c),
            None => 0,
        })
    }
}

/// A point on a criterion without a weight counts once: ten tenths.
pub proof fn lemma_unweighted_point_counts_once(c: CriterionView, p: i8)
    requires
        c.weight is None,
    ensures
        contribution(p, c) == 10 * p,
{
}

/// A point on a criterion of weight `w` counts `w / 10` times: it adds `w`
/// tenths, which is a tenth of `w` times what it adds without a weight.
pub proof fn lemma_weighted_point_counts_by_tenths(c: CriterionView, p: i8, w: i32)
    requires
        c.weight == Some(w),
    ensures
        contribution(p, c) == p * w,
        10 * contribution(p, c) == w * (10 * p),
{
    assert(10 * (p * w) == w * (10 * p)) by (nonlinear_arith);
}

/// What a point on `criterion` adds to the weighted score, in tenths.
pub fn weighted_contribution(point: i8, criterion: &Criterion) -> (r: i64)
    ensures
        r == contribution(point, criterion@),
        -0x40_0000_0000 <= r <= 0x40_0000_0000,
{
    let f: i64 = match criterion.weight {
        Some(w) => w as i64,
        None => 10,
    };
    assert(-128 * 0x8000_0000 <= (point as int) * (f as int) <= 128 * 0x8000_0000)
        by (nonlinear_arith)
        requires
            -128 <= point <= 127,
            -0x8000_0000 <= f <= 0x7fff_ffff,
    ;
    (point as i64) * f
}

/// The sum of the points of a ballot's votes.
pub fn sum_up_sum(given_votes: &Vec<Vote>) -> (r: i128)
    requires
        given_votes.len() >= 1,
    ensures
        r == points_sum(given_votes.deep_view()),
{
    let mut acc: i128 = 0;
    let mut i: usize = 0;
    while i < given_votes.len()
        invariant
            i <= given_votes.len(),
            acc == points_sum(given_votes.deep_view().take(i as int)),
            -128 * i <= acc <= 127 * i,
        decreases given_votes.len() - i,
    {
        assert(given_votes.deep_view().take(i + 1).drop_last() =~= given_votes.deep_view().take(
            i as int,
        ));
        assert(given_votes.deep_view().take(i + 1).last() == given_votes[i as int]@);
        acc = acc + given_votes[i].point as i128;
        i += 1;
    }
    assert(given_votes.deep_view().take(given_votes.len() as int) =~= given_votes.deep_view());
    acc
}

/// The first of `categories` that is called `name`.
pub fn criterion_named<'a>(categories: &'a Vec<Criterion>, name: &str) -> (r: Option<
    &'a Criterion,
>)
    ensures
        r is Some <==> find_criterion(categories.deep_view(), name@) is Some,
        r is Some ==> find_criterion(categories.deep_view(), name@) == Some(r->0@),
{
    let mut i: usize = 0;
    assert(categories.deep_view().skip(0) =~= categories.deep_view());
    while i < categories.len()
        invariant
            i <= categories.len(),
            find_criterion(categories.deep_view(), name@) == find_criterion(
                categories.deep_view().skip(i as int),
                name@,
            ),
        decreases categories.len() - i,
    {
        assert(categories.deep_view().skip(i as int)[0] == categories[i as int]@);
        assert(categories.deep_view().skip(i as int).skip(1) =~= categories.deep_view().skip(
            i + 1,
        ));
        if same_text(categories[i].name.as_str(), name) {
            return Some(&categories[i]);
        }
        i += 1;
    }
    None
}

/// The weighted score of a ballot's votes, in tenths. A vote on a criterion
/// that the poll does not have is an error.
pub fn sum_up_weight(given_votes: &Vec<Vote>, categories: &Vec<Criterion>) -> (r: Result<
    i128,
    TallyError,
>)
    requires
        given_votes.len() >= 1,
    ensures
        all_known(given_votes.deep_view(), categories.deep_view()) ==> r == Ok::<
            i128,
            TallyError,
        >(weighted_sum(given_votes.deep_view(), categories.deep_view()) as i128),
        !all_known(given_votes.deep_view(), categories.deep_view()) ==> r == Err::<
            i128,
            TallyError,
        >(TallyError::UnknownCriterion),
{
    let mut acc: i128 = 0;
    let mut i: usize = 0;
    while i < given_votes.len()
        invariant
            i <= given_votes.len(),
            acc == weighted_sum(given_votes.deep_view().take(i as int), categories.deep_view()),
            -0x40_0000_0000 * i <= acc <= 0x40_0000_0000 * i,
            forall|j: int|
                0 <= j < i ==> find_criterion(
                    categories.deep_view(),
                    (#[trigger] given_votes.deep_view()[j]).name,
                ) is Some,
        decreases given_votes.len() - i,
    {
        assert(given_votes.deep_view().take(i + 1).drop_last() =~= given_votes.deep_view().take(
            i as int,
        ));
        assert(given_votes.deep_view().take(i + 1).last() == given_votes[i as int]@);
        assert(given_votes.deep_view()[i as int] == given_votes[i as int]@);
        match criterion_named(categories, given_votes[i].name.as_str()) {
            Some(c) => {
                let term = weighted_contribution(given_votes[i].point, c);
                acc = acc + term as i128;
            },
            None => {
                return Err(TallyError::UnknownCriterion);
            },
        }
        i += 1;
    }
    assert(given_votes.deep_view().take(given_votes.len() as int) =~= given_votes.deep_view());
    Ok(acc)
}


/// What one ballot sums up to.
#[derive(Debug)]
pub struct TableRowSum {
    pub sum: i128,
    pub weighted: i128,
    pub mean: Mean,
    pub candidate: String,
    pub notes: String,
    pub votes: Vec<Vote>,
    pub voted_on: Timestamp,
}

/// What a `TableRowSum` holds.
pub struct TableRowSumView {
    pub sum: i128,
    pub weighted: i128,
    pub mean: Mean,
    pub candidate: Seq<char>,
    pub notes: Seq<char>,
    pub votes: Seq<VoteView>,
    pub voted_on: Timestamp,
}

impl View for TableRowSum {
    type V = TableRowSumView;

    open spec fn view(&self) -> TableRowSumView {
        TableRowSumView {
            sum: self.sum,
            weighted: self.weighted,
            mean: self.mean,
            candidate: self.candidate@,
            notes: self.notes@,
            votes: self.votes.deep_view(),
            voted_on: self.voted_on,
        }
    }
}

/// One row of the table of results: a ballot with its poll, its voter and
/// what it sums up to. `weighted` is in tenths.
#[derive(Debug)]
pub struct TableRow {
    pub voting: String,
    pub voter: String,
    pub candidate: String,
    pub sum: i128,
    pub weighted: i128,
    pub mean: Mean,
    pub notes: String,
    pub votes: Vec<Vote>,
    pub voted_on: Timestamp,
}

/// What a `TableRow` holds.
pub struct TableRowView {
    pub voting: Seq<char>,
    pub voter: Seq<char>,
    pub candidate: Seq<char>,
    pub sum: i128,
    pub weighted: i128,
    pub mean: Mean,
    pub notes: Seq<char>,
    pub votes: Seq<VoteView>,
    pub voted_on: Timestamp,
}

impl View for TableRow {
    type V = TableRowView;

    open spec fn view(&self) -> TableRowView {
        TableRowView {
            voting: self.voting@,
            voter: self.voter@,
            candidate: self.candidate@,
            sum: self.sum,
            weighted: self.weighted,
            mean: self.mean,
            notes: self.notes@,
            votes: self.votes.deep_view(),
            voted_on: self.voted_on,
        }
    }
}

impl DeepView for TableRow {
    type V = TableRowView;

    open spec fn deep_view(&self) -> TableRowView {
        self@
    }
}

impl Clone for TableRow {
    fn clone(&self) -> (r: Self)
        ensures
            r@ == self@,
    {
        let votes = self.votes.clone();
        assert(votes.deep_view() =~= self.votes.deep_view());
        TableRow {
            voting: self.voting.clone(),
            voter: self.voter.clone(),
            candidate: self.candidate.clone(),
            sum: self.sum,
            weighted: self.weighted,
            mean: self.mean,
            notes: self.notes.clone(),
            votes,
            voted_on: self.voted_on,
        }
    }
}

/// What a ballot sums up to: the sum of its points, its weighted score in
/// tenths, its mean, and its note or "n/a". It is an error for the ballot to
/// vote on a criterion that is not among `categories`, or to carry no date,
/// in this order.
pub open spec fn ballot_tally(b: BallotView, categories: Seq<CriterionView>) -> Result<
    TableRowSumView,
    TallyError,
> {
    if !all_known(b.votes, categories) {
        Err(TallyError::UnknownCriterion)
    } else if b.voted_on is None {
        Err(TallyError::MissingDate)
    } else {
        Ok(
            TableRowSumView {
                sum: points_sum(b.votes) as i128,
                weighted: weighted_sum(b.votes, categories) as i128,
                mean: Mean { total: points_sum(b.votes) as i128, count: b.votes.len() as usize },
                candidate: b.candidate,
                notes: match b.notes {
                    Some(n) => n,
                    None => "n/a"@,
                },
                votes: b.votes,
                voted_on: b.voted_on->0,
            },
        )
    }
}

/// The row for a tallied ballot of `voter` in the poll `voting`.
pub open spec fn table_row(voting: Seq<char>, voter: Seq<char>, t: TableRowSumView) -> TableRowView {
    TableRowView {
        voting,
        voter,
        candidate: t.candidate,
        sum: t.sum,
        weighted: t.weighted,
        mean: t.mean,
        notes: t.notes,
        votes: t.votes,
        voted_on: t.voted_on,
    }
}

/// The rows for the ballots of one voter, in their order, or the error of
/// the first ballot that has one.
pub open spec fn tally_rows(
    voting: Seq<char>,
    voter: Seq<char>,
    ballots: Seq<BallotView>,
    categories: Seq<CriterionView>,
) -> Result<Seq<TableRowView>, TallyError>
    decreases ballots.len(),
{
    if ballots.len() == 0 {
        Ok(Seq::empty())
    } else {
        match ballot_tally(ballots[0], categories) {
            Err(e) => Err(e),
            Ok(t) => match tally_rows(voting, voter, ballots.skip(1), categories) {
                Err(e) => Err(e),
                Ok(rest) => Ok(seq![table_row(voting, voter, t)] + rest),
            },
        }
    }
}

/// The rows for the ballots of each voter in turn, or the first error.
pub open spec fn known_rows(
    voting: Seq<char>,
    known: Seq<KnownBallotsView>,
    categories: Seq<CriterionView>,
) -> Result<Seq<TableRowView>, TallyError>
    decreases known.len(),
{
    if known.len() == 0 {
        Ok(Seq::empty())
    } else {
        match tally_rows(voting, known[0].voter, known[0].ballots, categories) {
            Err(e) => Err(e),
            Ok(rows) => match known_rows(voting, known.skip(1), categories) {
                Err(e) => Err(e),
                Ok(rest) => Ok(rows + rest),
            },
        }
    }
}

/// The rows for one stored unit of cast ballots. A unit without ballots has
/// no rows; one with ballots has to name its poll.
pub open spec fn cast_group(c: CastBallotsView, categories: Seq<CriterionView>) -> Result<
    Seq<TableRowView>,
    TallyError,
> {
    if c.ballots.len() == 0 {
        Ok(Seq::empty())
    } else {
        match c.voting {
            None => Err(TallyError::MissingVoting),
            Some(v) => known_rows(v, c.ballots, categories),
        }
    }
}

/// The rows for each stored unit in turn, or the first error.
pub open spec fn cast_rows(cast: Seq<CastBallotsView>, categories: Seq<CriterionView>) -> Result<
    Seq<TableRowView>,
    TallyError,
>
    decreases cast.len(),
{
    if cast.len() == 0 {
        Ok(Seq::empty())
    } else {
        match cast_group(cast[0], categories) {
            Err(e) => Err(e),
            Ok(rows) => match cast_rows(cast.skip(1), categories) {
                Err(e) => Err(e),
                Ok(rest) => Ok(rows + rest),
            },
        }
    }
}

/// Whether each of `ballots` holds a vote.
pub open spec fn ballots_have_votes(ballots: Seq<BallotView>) -> bool {
    forall|i: int| 0 <= i < ballots.len() ==> (#[trigger] ballots[i]).votes.len() >= 1
}

/// Whether each ballot of each voter holds a vote.
pub open spec fn known_have_votes(known: Seq<KnownBallotsView>) -> bool {
    forall|i: int| 0 <= i < known.len() ==> ballots_have_votes((#[trigger] known[i]).ballots)
}

/// Whether each ballot of each stored unit holds a vote.
pub open spec fn cast_have_votes(cast: Seq<CastBallotsView>) -> bool {
    forall|i: int| 0 <= i < cast.len() ==> known_have_votes((#[trigger] cast[i]).ballots)
}

/// Whether rows, or the error in their place, are what was expected.
pub open spec fn rows_are(
    r: Result<Vec<TableRow>, TallyError>,
    expected: Result<Seq<TableRowView>, TallyError>,
) -> bool {
    match r {
        Ok(rows) => expected == Ok::<Seq<TableRowView>, TallyError>(rows.deep_view()),
        Err(e) => expected == Err::<Seq<TableRowView>, TallyError>(e),
    }
}

/// Whether each of `ballots` holds a vote.
pub fn ballots_hold_votes(ballots: &Vec<Ballot>) -> (r: bool)
    ensures
        r == ballots_have_votes(ballots.deep_view()),
{
    let mut k: usize = 0;
    while k < ballots.len()
        invariant
            k <= ballots.len(),
            forall|m: int| 0 <= m < k ==> (#[trigger] ballots.deep_view()[m]).votes.len() >= 1,
        decreases ballots.len() - k,
    {
        assert(ballots.deep_view()[k as int] == ballots[k as int]@);
        if ballots[k].votes.len() == 0 {
            return false;
        }
        k += 1;
    }
    true
}

/// Whether each ballot of each voter holds a vote.
pub fn known_hold_votes(known: &Vec<KnownBallots>) -> (r: bool)
    ensures
        r == known_have_votes(known.deep_view()),
{
    let mut j: usize = 0;
    while j < known.len()
        invariant
            j <= known.len(),
            forall|m: int|
                0 <= m < j ==> ballots_have_votes((#[trigger] known.deep_view()[m]).ballots),
        decreases known.len() - j,
    {
        assert(known.deep_view()[j as int] == known[j as int]@);
        if !ballots_hold_votes(&known[j].ballots) {
            return false;
        }
        j += 1;
    }
    true
}

/// Whether each ballot of each stored unit holds a vote.
pub fn has_votes(cast: &Vec<CastBallots>) -> (r: bool)
    ensures
        r == cast_have_votes(cast.deep_view()),
{
    let mut i: usize = 0;
    while i < cast.len()
        invariant
            i <= cast.len(),
            forall|m: int| 0 <= m < i ==> known_have_votes((#[trigger] cast.deep_view()[m]).ballots),
        decreases cast.len() - i,
    {
        assert(cast.deep_view()[i as int] == cast[i as int]@);
        if !known_hold_votes(&cast[i].ballots) {
            return false;
        }
        i += 1;
    }
    true
}

/// Tallies one ballot.
pub fn tally_ballot(b: &Ballot, categories: &Vec<Criterion>) -> (r: Result<
    TableRowSum,
    TallyError,
>)
    requires
        b.votes.len() >= 1,
    ensures
        (match r {
            Ok(t) => ballot_tally(b@, categories.deep_view()) == Ok::<
                TableRowSumView,
                TallyError,
            >(t@),
            Err(e) => ballot_tally(b@, categories.deep_view()) == Err::<
                TableRowSumView,
                TallyError,
            >(e),
        }),
{
    let sum = sum_up_sum(&b.votes);
    let weighted = match sum_up_weight(&b.votes, categories) {
        Ok(w) => w,
        Err(e) => {
            return Err(e);
        },
    };
    let voted_on = match b.voted_on {
        Some(t) => t,
        None => {
            return Err(TallyError::MissingDate);
        },
    };
    let notes = match &b.notes {
        Some(n) => n.clone(),
        None => "n/a".to_owned(),
    };
    let votes = b.votes.clone();
    assert(votes.deep_view() =~= b.votes.deep_view());
    Ok(
        TableRowSum {
            candidate: b.candidate.clone(),
            votes,
            notes,
            voted_on,
            sum,
            weighted,
            mean: Mean { total: sum, count: b.votes.len() },
        },
    )
}

/// The rows for the ballots of one voter in the poll `voting`.
pub fn map_ballot(known_ballot: KnownBallots, categories: &Vec<Criterion>, voting: &str) -> (r:
    Result<Vec<TableRow>, TallyError>)
    requires
        ballots_have_votes(known_ballot@.ballots),
    ensures
        rows_are(
            r,
            tally_rows(voting@, known_ballot@.voter, known_ballot@.ballots, categories.deep_view()),
        ),
{
    let ghost all = known_ballot@.ballots;
    let ghost cats = categories.deep_view();
    let ghost full = tally_rows(voting@, known_ballot@.voter, all, cats);
    let mut out: Vec<TableRow> = Vec::new();
    let mut i: usize = 0;
    assert(all.skip(0) =~= all);
    assert(out.deep_view() =~= Seq::<TableRowView>::empty());
    assert(forall|rest: Seq<TableRowView>| out.deep_view() + rest =~= rest);
    while i < known_ballot.ballots.len()
        invariant
            i <= known_ballot.ballots.len(),
            all == known_ballot@.ballots,
            cats == categories.deep_view(),
            ballots_have_votes(all),
            full == tally_rows(voting@, known_ballot@.voter, all, cats),
            full == (match tally_rows(voting@, known_ballot@.voter, all.skip(i as int), cats) {
                Ok(rest) => Ok::<Seq<TableRowView>, TallyError>(out.deep_view() + rest),
                Err(e) => Err::<Seq<TableRowView>, TallyError>(e),
            }),
        decreases known_ballot.ballots.len() - i,
    {
        let b = &known_ballot.ballots[i];
        assert(all[i as int] == b@);
        assert(all.skip(i as int)[0] == b@);
        assert(all.skip(i as int).skip(1) =~= all.skip(i + 1));
        match tally_ballot(b, categories) {
            Err(e) => {
                return Err(e);
            },
            Ok(t) => {
                let ghost before = out.deep_view();
                let ghost row = table_row(voting@, known_ballot@.voter, t@);
                out.push(
                    TableRow {
                        voting: voting.to_owned(),
                        voter: known_ballot.voter.clone(),
                        votes: t.votes,
                        candidate: t.candidate,
                        notes: t.notes,
                        sum: t.sum,
                        weighted: t.weighted,
                        mean: t.mean,
                        voted_on: t.voted_on,
                    },
                );
                assert(out.deep_view() =~= before.push(row));
                assert(forall|rest: Seq<TableRowView>|
                    #![auto]
                    before.push(row) + rest =~= before + (seq![row] + rest));
            },
        }
        i += 1;
    }
    assert(forall|s: Seq<TableRowView>| #![auto] s + Seq::<TableRowView>::empty() =~= s);
    Ok(out)
}


/// The rows for the ballots of each voter in turn.
pub fn rows_of_known(known: &Vec<KnownBallots>, categories: &Vec<Criterion>, voting: &str) -> (r:
    Result<Vec<TableRow>, TallyError>)
    requires
        known_have_votes(known.deep_view()),
    ensures
        rows_are(r, known_rows(voting@, known.deep_view(), categories.deep_view())),
{
    let ghost all = known.deep_view();
    let ghost cats = categories.deep_view();
    let ghost full = known_rows(voting@, all, cats);
    let mut out: Vec<TableRow> = Vec::new();
    let mut i: usize = 0;
    assert(all.skip(0) =~= all);
    assert(out.deep_view() =~= Seq::<TableRowView>::empty());
    assert(forall|rest: Seq<TableRowView>| out.deep_view() + rest =~= rest);
    while i < known.len()
        invariant
            i <= known.len(),
            all == known.deep_view(),
            cats == categories.deep_view(),
            known_have_votes(all),
            full == known_rows(voting@, all, cats),
            full == (match known_rows(voting@, all.skip(i as int), cats) {
                Ok(rest) => Ok::<Seq<TableRowView>, TallyError>(out.deep_view() + rest),
                Err(e) => Err::<Seq<TableRowView>, TallyError>(e),
            }),
        decreases known.len() - i,
    {
        assert(all[i as int] == known[i as int]@);
        assert(all.skip(i as int)[0] == known[i as int]@);
        assert(all.skip(i as int).skip(1) =~= all.skip(i + 1));
        match map_ballot(known[i].clone(), categories, voting) {
            Err(e) => {
                return Err(e);
            },
            Ok(mut rows) => {
                let ghost before = out.deep_view();
                let ghost more = rows.deep_view();
                out.append(&mut rows);
                assert(out.deep_view() =~= before + more);
                assert(forall|rest: Seq<TableRowView>|
                    #![auto]
                    (before + more) + rest =~= before + (more + rest));
            },
        }
        i += 1;
    }
    assert(forall|s: Seq<TableRowView>| #![auto] s + Seq::<TableRowView>::empty() =~= s);
    Ok(out)
}

/// The rows for one stored unit of cast ballots.
pub fn rows_of_unit(unit: &CastBallots, categories: &Vec<Criterion>) -> (r: Result<
    Vec<TableRow>,
    TallyError,
>)
    requires
        known_have_votes(unit@.ballots),
    ensures
        rows_are(r, cast_group(unit@, categories.deep_view())),
{
    if unit.ballots.len() == 0 {
        let out: Vec<TableRow> = Vec::new();
        assert(out.deep_view() =~= Seq::<TableRowView>::empty());
        Ok(out)
    } else {
        match &unit.voting {
            None => Err(TallyError::MissingVoting),
            Some(v) => rows_of_known(&unit.ballots, categories, v.as_str()),
        }
    }
}

impl TableRow {
    /// The rows for all the ballots that were cast, in the order in which
    /// they are stored.
    pub fn from_cast_ballots(cast_ballots: Vec<CastBallots>, categories: &Vec<Criterion>) -> (r:
        Result<Vec<TableRow>, TallyError>)
        requires
            cast_have_votes(cast_ballots.deep_view()),
        ensures
            rows_are(r, cast_rows(cast_ballots.deep_view(), categories.deep_view())),
    {
        let ghost all = cast_ballots.deep_view();
        let ghost cats = categories.deep_view();
        let ghost full = cast_rows(all, cats);
        let mut out: Vec<TableRow> = Vec::new();
        let mut i: usize = 0;
        assert(all.skip(0) =~= all);
        assert(out.deep_view() =~= Seq::<TableRowView>::empty());
        assert(forall|rest: Seq<TableRowView>| out.deep_view() + rest =~= rest);
        while i < cast_ballots.len()
            invariant
                i <= cast_ballots.len(),
                all == cast_ballots.deep_view(),
                cats == categories.deep_view(),
                cast_have_votes(all),
                full == cast_rows(all, cats),
                full == (match cast_rows(all.skip(i as int), cats) {
                    Ok(rest) => Ok::<Seq<TableRowView>, TallyError>(out.deep_view() + rest),
                    Err(e) => Err::<Seq<TableRowView>, TallyError>(e),
                }),
            decreases cast_ballots.len() - i,
        {
            assert(all[i as int] == cast_ballots[i as int]@);
            assert(all.skip(i as int)[0] == cast_ballots[i as int]@);
            assert(all.skip(i as int).skip(1) =~= all.skip(i + 1));
            match rows_of_unit(&cast_ballots[i], categories) {
                Err(e) => {
                    return Err(e);
                },
                Ok(mut rows) => {
                    let ghost before = out.deep_view();
                    let ghost more = rows.deep_view();
                    out.append(&mut rows);
                    assert(out.deep_view() =~= before + more);
                    assert(forall|rest: Seq<TableRowView>|
                        #![auto]
                        (before + more) + rest =~= before + (more + rest));
                },
            }
            i += 1;
        }
        assert(forall|s: Seq<TableRowView>| #![auto] s + Seq::<TableRowView>::empty() =~= s);
        Ok(out)
    }
}

/// The rows for all the ballots that were cast, or `None` where no unit of
/// cast ballots was handed in at all.
pub fn map_ballots(ballots: Vec<CastBallots>, categories: &Vec<Criterion>) -> (r: Result<
    Option<Vec<TableRow>>,
    TallyError,
>)
    requires
        cast_have_votes(ballots.deep_view()),
    ensures
        (match r {
            Ok(Some(rows)) => ballots@.len() > 0 && cast_rows(
                ballots.deep_view(),
                categories.deep_view(),
            ) == Ok::<Seq<TableRowView>, TallyError>(rows.deep_view()),
            Ok(None) => ballots@.len() == 0,
            Err(e) => cast_rows(ballots.deep_view(), categories.deep_view()) == Err::<
                Seq<TableRowView>,
                TallyError,
            >(e),
        }),
{
    if ballots.len() == 0 {
        Ok(None)
    } else {
        match TableRow::from_cast_ballots(ballots, categories) {
            Ok(rows) => Ok(Some(rows)),
            Err(e) => Err(e),
        }
    }
}

/// Headers and rows.
#[derive(Debug)]
pub struct Table<H, R> {
    pub headers: Vec<H>,
    pub rows: Vec<R>,
}

impl<H, R> Table<H, R> {
    pub fn new(headers: Vec<H>, rows: Vec<R>) -> (r: Self)
        ensures
            r.headers == headers,
            r.rows == rows,
    {
        Self { headers, rows }
    }
}

/// Whether a request for the poll `voting_id` is answered from the poll
/// called `name`: the two are the same, letter case aside.
pub open spec fn same_voting(name: Seq<char>, voting_id: Seq<char>) -> bool {
    lowercase(name) == lowercase(voting_id)
}

/// The table of results for a request: the criteria of `voting` and the
/// rows, but only where `voting` is the poll that was asked for. Otherwise
/// the table has neither headers nor rows.
pub fn verify_correct_voting_id(voting: Voting, voting_id: &str, ballots: Vec<TableRow>) -> (r:
    Table<Criterion, TableRow>)
    ensures
        same_voting(voting.name@, voting_id@) ==> r.headers == voting.categories && r.rows
            == ballots,
        !same_voting(voting.name@, voting_id@) ==> r.headers@.len() == 0 && r.rows@.len() == 0,
{
    let name = to_lowercase(voting.name.as_str());
    let wanted = to_lowercase(voting_id);
    if same_text(name.as_str(), wanted.as_str()) {
        Table::<Criterion, TableRow>::new(voting.categories, ballots)
    } else {
        Table::<Criterion, TableRow>::new(Vec::new(), Vec::new())
    }
}


/// What the rows of a table are ordered by.
#[derive(Clone, Copy, Debug, PartialEq, Eq, Structural)]
pub enum SortKey {
    Sum,
    Mean,
    Weighted,
    VotedOn,
}

/// The ordering that a request names: "mean" or "weighted"; any
/// other word asks for the sum.
pub open spec fn sort_key_of(sort: Seq<char>) -> SortKey {
    if sort == "mean"@ {
        SortKey::Mean
    } else if sort == "weighted"@ {
        SortKey::Weighted
    } else {
        SortKey::Sum
    }
}

/// The ordering that a request names.
pub fn sort_key(sort: &str) -> (r: SortKey)
    ensures
        r == sort_key_of(sort@),
{
    if same_text(sort, "mean") {
        SortKey::Mean
    } else if same_text(sort, "weighted") {
        SortKey::Weighted
    } else {
        SortKey::Sum
    }
}

/// Whether the mean `a` is at most the mean `b`, as fractions.
pub open spec fn mean_le(a: Mean, b: Mean) -> bool {
    a.total * b.count <= b.total * a.count
}

/// Whether row `a` may stand before row `b` in the ordering by `key`.
pub open spec fn row_le(key: SortKey, a: TableRowView, b: TableRowView) -> bool {
    match key {
        SortKey::Sum => a.sum <= b.sum,
        SortKey::Mean => mean_le(a.mean, b.mean),
        SortKey::Weighted => a.weighted <= b.weighted,
        SortKey::VotedOn => not_after(a.voted_on, b.voted_on),
    }
}

/// Comparing two fractions comes down to comparing their whole parts and,
/// where these are the same, what is left over.
proof fn lemma_compare_fractions(a: int, b: int, c: int, d: int)
    requires
        b > 0,
        d > 0,
    ensures
        a * d <= c * b <==> a / b < c / d || (a / b == c / d && (a % b) * d <= (c % d) * b),
{
    vstd::arithmetic::div_mod::lemma_fundamental_div_mod(a, b);
    vstd::arithmetic::div_mod::lemma_fundamental_div_mod(c, d);
    vstd::arithmetic::div_mod::lemma_mod_bound(a, b);
    vstd::arithmetic::div_mod::lemma_mod_bound(c, d);
    let q1 = a / b;
    let r1 = a % b;
    let q2 = c / d;
    let r2 = c % d;
    let bd = b * d;
    assert(0 <= r1 * d < bd) by (nonlinear_arith)
        requires
            0 <= r1 < b,
            d > 0,
            bd == b * d,
    ;
    assert(0 <= r2 * b < bd) by (nonlinear_arith)
        requires
            0 <= r2 < d,
            b > 0,
            bd == b * d,
    ;
    assert(a * d == q1 * bd + r1 * d) by (nonlinear_arith)
        requires
            a == b * q1 + r1,
            bd == b * d,
    ;
    assert(c * b == q2 * bd + r2 * b) by (nonlinear_arith)
        requires
            c == d * q2 + r2,
            bd == b * d,
    ;
    if q1 < q2 {
        assert(q1 * bd + bd <= q2 * bd) by (nonlinear_arith)
            requires
                q1 < q2,
                bd > 0,
        ;
    } else if q1 > q2 {
        assert(q2 * bd + bd <= q1 * bd) by (nonlinear_arith)
            requires
                q2 < q1,
                bd > 0,
        ;
    }
}

/// The whole part and the rest of a sum divided by a count.
fn whole_and_rest(total: i128, count: usize) -> (r: (i128, u128))
    requires
        count > 0,
    ensures
        r.0 == (total as int) / (count as int),
        r.1 == (total as int) % (count as int),
{
    let d: i128 = count as i128;
    proof {
        vstd::arithmetic::div_mod::lemma_fundamental_div_mod(total as int, d as int);
        vstd::arithmetic::div_mod::lemma_mod_bound(total as int, d as int);
        let q = (total as int) / (d as int);
        let rest = (total as int) % (d as int);
        assert(-0x8000_0000_0000_0000_0000_0000_0000_0000 <= q
            <= 0x7fff_ffff_ffff_ffff_ffff_ffff_ffff_ffff) by (nonlinear_arith)
            requires
                total == d * q + rest,
                0 <= rest < d,
                -0x8000_0000_0000_0000_0000_0000_0000_0000 <= total
                    <= 0x7fff_ffff_ffff_ffff_ffff_ffff_ffff_ffff,
        ;
    }
    let q = total.checked_div_euclid(d);
    let rest = total.checked_rem_euclid(d);
    match (q, rest) {
        (Some(q), Some(rest)) => (q, rest as u128),
        _ => (0, 0),
    }
}

/// Whether the mean `a` is at most the mean `b`, as fractions.
pub fn mean_precedes(a: Mean, b: Mean) -> (r: bool)
    ensures
        r == mean_le(a, b),
{
    if a.count == 0 && b.count == 0 {
        true
    } else if b.count == 0 {
        assert((b.total * a.count >= 0) == (b.total >= 0)) by (nonlinear_arith)
            requires
                a.count > 0,
        ;
        b.total >= 0
    } else if a.count == 0 {
        assert((a.total * b.count <= 0) == (a.total <= 0)) by (nonlinear_arith)
            requires
                b.count > 0,
        ;
        a.total <= 0
    } else {
        let (qa, ra) = whole_and_rest(a.total, a.count);
        let (qb, rb) = whole_and_rest(b.total, b.count);
        proof {
            lemma_compare_fractions(a.total as int, a.count as int, b.total as int, b.count as int);
            vstd::arithmetic::div_mod::lemma_mod_bound(a.total as int, a.count as int);
            vstd::arithmetic::div_mod::lemma_mod_bound(b.total as int, b.count as int);
        }
        if qa != qb {
            qa < qb
        } else {
            let ac: u128 = a.count as u128;
            let bc: u128 = b.count as u128;
            assert(ra * bc < 0x1_0000_0000_0000_0000 * 0x1_0000_0000_0000_0000)
                by (nonlinear_arith)
                requires
                    0 <= ra < 0x1_0000_0000_0000_0000,
                    0 <= bc < 0x1_0000_0000_0000_0000,
            ;
            assert(rb * ac < 0x1_0000_0000_0000_0000 * 0x1_0000_0000_0000_0000)
                by (nonlinear_arith)
                requires
                    0 <= rb < 0x1_0000_0000_0000_0000,
                    0 <= ac < 0x1_0000_0000_0000_0000,
            ;
            ra * bc <= rb * ac
        }
    }
}

/// Whether row `a` may stand before row `b` in the ordering by `key`.
pub fn precedes(key: SortKey, a: &TableRow, b: &TableRow) -> (r: bool)
    ensures
        r == row_le(key, a@, b@),
{
    match key {
        SortKey::Sum => a.sum <= b.sum,
        SortKey::Mean => mean_precedes(a.mean, b.mean),
        SortKey::Weighted => a.weighted <= b.weighted,
        SortKey::VotedOn => a.voted_on.le(&b.voted_on),
    }
}

/// `sorted` with `row` put behind the last row that may stand before it.
pub open spec fn insert_row(sorted: Seq<TableRowView>, row: TableRowView, key: SortKey) -> Seq<
    TableRowView,
>
    decreases sorted.len(),
{
    if sorted.len() == 0 {
        seq![row]
    } else if row_le(key, sorted.last(), row) {
        sorted.push(row)
    } else {
        insert_row(sorted.drop_last(), row, key).push(sorted.last())
    }
}

/// `rows` in ascending order by `key`; rows that the key does not tell
/// apart keep the order they came in.
pub open spec fn sorted_rows(rows: Seq<TableRowView>, key: SortKey) -> Seq<TableRowView>
    decreases rows.len(),
{
    if rows.len() == 0 {
        rows
    } else {
        insert_row(sorted_rows(rows.drop_last(), key), rows.last(), key)
    }
}

/// Where a row goes: behind every row that may stand before it.
proof fn lemma_insert_at(sorted: Seq<TableRowView>, row: TableRowView, key: SortKey, pos: int)
    requires
        0 <= pos <= sorted.len(),
        forall|k: int| pos <= k < sorted.len() ==> !row_le(key, #[trigger] sorted[k], row),
        pos > 0 ==> row_le(key, sorted[pos - 1], row),
    ensures
        insert_row(sorted, row, key) == sorted.insert(pos, row),
    decreases sorted.len(),
{
    if sorted.len() == 0 {
        assert(sorted.insert(pos, row) =~= seq![row]);
    } else if pos == sorted.len() {
        assert(sorted.insert(pos, row) =~= sorted.push(row));
    } else {
        assert(!row_le(key, sorted[sorted.len() - 1], row));
        lemma_insert_at(sorted.drop_last(), row, key, pos);
        assert(sorted.drop_last().insert(pos, row).push(sorted.last()) =~= sorted.insert(
            pos,
            row,
        ));
    }
}

/// The rows in ascending order by `key`, equal rows in the order they came.
pub fn sort_rows(rows: Vec<TableRow>, key: SortKey) -> (r: Vec<TableRow>)
    ensures
        r.deep_view() == sorted_rows(rows.deep_view(), key),
{
    let ghost all = rows.deep_view();
    let mut rest = rows;
    let mut out: Vec<TableRow> = Vec::new();
    let ghost mut done: int = 0;
    assert(all.take(0) =~= Seq::<TableRowView>::empty());
    assert(out.deep_view() =~= Seq::<TableRowView>::empty());
    assert(all.skip(0) =~= all);
    while rest.len() > 0
        invariant
            0 <= done <= all.len(),
            rest.deep_view() == all.skip(done),
            out.deep_view() == sorted_rows(all.take(done), key),
        decreases rest.len(),
    {
        let ghost rest_before = rest.deep_view();
        let ghost raw_before = rest@;
        assert(rest_before.len() == rest.len());
        assert(done < all.len());
        let row = rest.remove(0);
        assert(row@ == rest_before[0]);
        assert(rest@ =~= raw_before.remove(0));
        assert(forall|k: int| 0 <= k < rest@.len() ==> rest@[k] == raw_before[k + 1]);
        assert(forall|k: int|
            0 <= k < rest@.len() ==> #[trigger] rest.deep_view()[k] == rest_before[k + 1]);
        assert(rest.deep_view() =~= all.skip(done + 1));
        assert(all.take(done + 1).drop_last() =~= all.take(done));
        assert(all.take(done + 1).last() == row@);
        let mut pos: usize = out.len();
        while pos > 0 && !precedes(key, &out[pos - 1], &row)
            invariant
                pos <= out.len(),
                forall|k: int|
                    pos <= k < out.len() ==> !row_le(key, #[trigger] out.deep_view()[k], row@),
            decreases pos,
        {
            assert(out.deep_view()[pos - 1] == out[pos - 1]@);
            pos -= 1;
        }
        proof {
            if pos > 0 {
                assert(out.deep_view()[pos - 1] == out[pos - 1]@);
            }
            lemma_insert_at(out.deep_view(), row@, key, pos as int);
        }
        let ghost before = out.deep_view();
        out.insert(pos, row);
        assert(out.deep_view() =~= before.insert(pos as int, row@));
        proof {
            done = done + 1;
        }
    }
    assert(all.take(all.len() as int) =~= all);
    out
}

/// What the id of every ballot of the poll `voting_id` starts with: the
/// name of the poll in lower case and a hyphen.
pub open spec fn poll_prefix(voting_id: Seq<char>) -> Seq<char> {
    lowercase(voting_id) + "-"@
}

/// The entries of `ids` that can be ballots of the poll `voting_id`: those
/// that start with its name in lower case and a hyphen. The name of
/// another poll may start in the same way; which unit belongs to the poll
/// is settled by what the unit itself says, once it is loaded.
pub fn select_cast_ids(ids: &Vec<String>, voting_id: &str) -> (r: Vec<String>)
    ensures
        r.deep_view() == ids.deep_view().filter(
            |id: Seq<char>| poll_prefix(voting_id@).is_prefix_of(id),
        ),
{
    let mut wanted = to_lowercase(voting_id);
    wanted.append("-");
    let ghost pred = |id: Seq<char>| poll_prefix(voting_id@).is_prefix_of(id);
    let mut out: Vec<String> = Vec::new();
    let mut i: usize = 0;
    proof {
        reveal(Seq::filter);
        assert(ids.deep_view().take(0).filter(pred) =~= out.deep_view());
    }
    while i < ids.len()
        invariant
            i <= ids.len(),
            wanted@ == poll_prefix(voting_id@),
            pred == (|id: Seq<char>| poll_prefix(voting_id@).is_prefix_of(id)),
            out.deep_view() == ids.deep_view().take(i as int).filter(pred),
        decreases ids.len() - i,
    {
        proof {
            ids.deep_view().lemma_take_succ_push(i as int);
            ids.deep_view().take(i as int).lemma_filter_push(ids[i as int]@, pred);
        }
        if starts_with(ids[i].as_str(), wanted.as_str()) {
            let ghost before = out.deep_view();
            out.push(ids[i].clone());
            assert(out.deep_view() =~= before.push(ids[i as int]@));
        }
        i += 1;
    }
    assert(ids.deep_view().take(ids.len() as int) =~= ids.deep_view());
    out
}

/// Whether a stored unit of cast ballots belongs to the poll `voting_id`:
/// it names that poll, letter case aside.
pub open spec fn of_poll(c: CastBallotsView, voting_id: Seq<char>) -> bool {
    match c.voting {
        Some(v) => same_voting(v, voting_id),
        None => false,
    }
}

/// The rows for those of the stored units that belong to the poll
/// `voting_id`, in their order, or the first error among them. Units of
/// other polls are passed over.
pub open spec fn poll_rows(
    cast: Seq<CastBallotsView>,
    voting_id: Seq<char>,
    categories: Seq<CriterionView>,
) -> Result<Seq<TableRowView>, TallyError>
    decreases cast.len(),
{
    if cast.len() == 0 {
        Ok(Seq::empty())
    } else if !of_poll(cast[0], voting_id) {
        poll_rows(cast.skip(1), voting_id, categories)
    } else {
        match cast_group(cast[0], categories) {
            Err(e) => Err(e),
            Ok(rows) => match poll_rows(cast.skip(1), voting_id, categories) {
                Err(e) => Err(e),
                Ok(rest) => Ok(rows + rest),
            },
        }
    }
}

/// Whether the poll called `name` is the poll `voting_id`, letter case
/// aside.
pub fn same_poll(name: &str, voting_id: &str) -> (r: bool)
    ensures
        r == same_voting(name@, voting_id@),
{
    let left = to_lowercase(name);
    let right = to_lowercase(voting_id);
    same_text(left.as_str(), right.as_str())
}

/// The rows for those of the stored units that belong to the poll
/// `voting_id`.
pub fn rows_of_poll(cast: Vec<CastBallots>, voting_id: &str, categories: &Vec<Criterion>) -> (r:
    Result<Vec<TableRow>, TallyError>)
    requires
        cast_have_votes(cast.deep_view()),
    ensures
        rows_are(r, poll_rows(cast.deep_view(), voting_id@, categories.deep_view())),
{
    let ghost all = cast.deep_view();
    let ghost cats = categories.deep_view();
    let ghost full = poll_rows(all, voting_id@, cats);
    let mut out: Vec<TableRow> = Vec::new();
    let mut i: usize = 0;
    assert(all.skip(0) =~= all);
    assert(out.deep_view() =~= Seq::<TableRowView>::empty());
    assert(forall|rest: Seq<TableRowView>| out.deep_view() + rest =~= rest);
    while i < cast.len()
        invariant
            i <= cast.len(),
            all == cast.deep_view(),
            cats == categories.deep_view(),
            cast_have_votes(all),
            full == poll_rows(all, voting_id@, cats),
            full == (match poll_rows(all.skip(i as int), voting_id@, cats) {
                Ok(rest) => Ok::<Seq<TableRowView>, TallyError>(out.deep_view() + rest),
                Err(e) => Err::<Seq<TableRowView>, TallyError>(e),
            }),
        decreases cast.len() - i,
    {
        assert(all[i as int] == cast[i as int]@);
        assert(all.skip(i as int)[0] == cast[i as int]@);
        assert(all.skip(i as int).skip(1) =~= all.skip(i + 1));
        let belongs = match &cast[i].voting {
            Some(v) => same_poll(v.as_str(), voting_id),
            None => false,
        };
        if belongs {
            match rows_of_unit(&cast[i], categories) {
                Err(e) => {
                    return Err(e);
                },
                Ok(mut rows) => {
                    let ghost before = out.deep_view();
                    let ghost more = rows.deep_view();
                    out.append(&mut rows);
                    assert(out.deep_view() =~= before + more);
                    assert(forall|rest: Seq<TableRowView>|
                        #![auto]
                        (before + more) + rest =~= before + (more + rest));
                },
            }
        }
        i += 1;
    }
    assert(forall|s: Seq<TableRowView>| #![auto] s + Seq::<TableRowView>::empty() =~= s);
    Ok(out)
}

/// Whether each of `rows` is a row of the poll called `voting`.
pub open spec fn rows_name(rows: Seq<TableRowView>, voting: Seq<char>) -> bool {
    forall|i: int| 0 <= i < rows.len() ==> (#[trigger] rows[i]).voting == voting
}

proof fn lemma_tally_rows_name(
    voting: Seq<char>,
    voter: Seq<char>,
    ballots: Seq<BallotView>,
    categories: Seq<CriterionView>,
)
    ensures
        tally_rows(voting, voter, ballots, categories) is Ok ==> rows_name(
            tally_rows(voting, voter, ballots, categories)->Ok_0,
            voting,
        ),
    decreases ballots.len(),
{
    if ballots.len() > 0 {
        lemma_tally_rows_name(voting, voter, ballots.skip(1), categories);
    }
}

proof fn lemma_known_rows_name(
    voting: Seq<char>,
    known: Seq<KnownBallotsView>,
    categories: Seq<CriterionView>,
)
    ensures
        known_rows(voting, known, categories) is Ok ==> rows_name(
            known_rows(voting, known, categories)->Ok_0,
            voting,
        ),
    decreases known.len(),
{
    if known.len() > 0 {
        lemma_tally_rows_name(voting, known[0].voter, known[0].ballots, categories);
        lemma_known_rows_name(voting, known.skip(1), categories);
    }
}

/// Every row of the table of a poll is a row of that poll: its unit names
/// the poll that was asked for, letter case aside. No ballot of a poll
/// whose name only starts in the same way is among them.
pub proof fn lemma_rows_are_of_the_poll(
    cast: Seq<CastBallotsView>,
    voting_id: Seq<char>,
    categories: Seq<CriterionView>,
)
    ensures
        poll_rows(cast, voting_id, categories) is Ok ==> forall|i: int|
            0 <= i < poll_rows(cast, voting_id, categories)->Ok_0.len() ==> same_voting(
                (#[trigger] poll_rows(cast, voting_id, categories)->Ok_0[i]).voting,
                voting_id,
            ),
    decreases cast.len(),
{
    if cast.len() > 0 {
        lemma_rows_are_of_the_poll(cast.skip(1), voting_id, categories);
        if of_poll(cast[0], voting_id) && cast[0].ballots.len() > 0 {
            lemma_known_rows_name(cast[0].voting->0, cast[0].ballots, categories);
        }
    }
}

/// Whether a row was cast by a voter whose name starts with `voter`,
/// letter case aside.
pub open spec fn by_voter(voter: Seq<char>) -> spec_fn(TableRowView) -> bool {
    |row: TableRowView| starts_alike(row.voter, voter)
}

/// Whether a row was cast for a candidate whose name starts with
/// `candidate`, letter case aside.
pub open spec fn by_candidate(candidate: Seq<char>) -> spec_fn(TableRowView) -> bool {
    |row: TableRowView| starts_alike(row.candidate, candidate)
}

/// The rows of voters whose name starts with `voter`, letter case aside.
pub fn filter_by_voter(rows: &Vec<TableRow>, voter: &str) -> (r: Vec<TableRow>)
    ensures
        r.deep_view() == rows.deep_view().filter(by_voter(voter@)),
{
    let ghost pred = by_voter(voter@);
    let mut out: Vec<TableRow> = Vec::new();
    let mut i: usize = 0;
    proof {
        reveal(Seq::filter);
        assert(rows.deep_view().take(0).filter(pred) =~= out.deep_view());
    }
    while i < rows.len()
        invariant
            i <= rows.len(),
            pred == by_voter(voter@),
            out.deep_view() == rows.deep_view().take(i as int).filter(pred),
        decreases rows.len() - i,
    {
        proof {
            rows.deep_view().lemma_take_succ_push(i as int);
            rows.deep_view().take(i as int).lemma_filter_push(rows[i as int]@, pred);
        }
        if compare_pattern_file_names(rows[i].voter.as_str(), voter) {
            let ghost before = out.deep_view();
            out.push(rows[i].clone());
            assert(out.deep_view() =~= before.push(rows[i as int]@));
        }
        i += 1;
    }
    assert(rows.deep_view().take(rows.len() as int) =~= rows.deep_view());
    out
}

/// The rows of candidates whose name starts with `candidate`, letter case
/// aside.
pub fn filter_by_candidate(rows: &Vec<TableRow>, candidate: &str) -> (r: Vec<TableRow>)
    ensures
        r.deep_view() == rows.deep_view().filter(by_candidate(candidate@)),
{
    let ghost pred = by_candidate(candidate@);
    let mut out: Vec<TableRow> = Vec::new();
    let mut i: usize = 0;
    proof {
        reveal(Seq::filter);
        assert(rows.deep_view().take(0).filter(pred) =~= out.deep_view());
    }
    while i < rows.len()
        invariant
            i <= rows.len(),
            pred == by_candidate(candidate@),
            out.deep_view() == rows.deep_view().take(i as int).filter(pred),
        decreases rows.len() - i,
    {
        proof {
            rows.deep_view().lemma_take_succ_push(i as int);
            rows.deep_view().take(i as int).lemma_filter_push(rows[i as int]@, pred);
        }
        if compare_pattern_file_names(rows[i].candidate.as_str(), candidate) {
            let ghost before = out.deep_view();
            out.push(rows[i].clone());
            assert(out.deep_view() =~= before.push(rows[i as int]@));
        }
        i += 1;
    }
    assert(rows.deep_view().take(rows.len() as int) =~= rows.deep_view());
    out
}

/// Two ways of writing a voter's name that differ in letter case alone
/// select the same rows.
pub proof fn lemma_voter_filter_ignores_case(rows: Seq<TableRowView>, a: Seq<char>, b: Seq<char>)
    requires
        lowercase(a) == lowercase(b),
    ensures
        rows.filter(by_voter(a)) == rows.filter(by_voter(b)),
{
    assert(by_voter(a) =~= by_voter(b));
}

/// Two ways of writing a candidate's name that differ in letter case alone
/// select the same rows.
pub proof fn lemma_candidate_filter_ignores_case(
    rows: Seq<TableRowView>,
    a: Seq<char>,
    b: Seq<char>,
)
    requires
        lowercase(a) == lowercase(b),
    ensures
        rows.filter(by_candidate(a)) == rows.filter(by_candidate(b)),
{
    assert(by_candidate(a) =~= by_candidate(b));
}


/// Whether every row stands before all rows behind it, in the ordering by
/// `key`.
pub open spec fn ordered(rows: Seq<TableRowView>, key: SortKey) -> bool {
    forall|i: int, j: int| 0 <= i < j < rows.len() ==> row_le(key, rows[i], rows[j])
}

/// Whether the rows can be compared by `key`: a mean needs a count.
pub open spec fn comparable(rows: Seq<TableRowView>, key: SortKey) -> bool {
    key == SortKey::Mean ==> forall|i: int|
        0 <= i < rows.len() ==> (#[trigger] rows[i]).mean.count > 0
}

/// The place that `insert_row` puts a row at.
pub open spec fn insert_pos(sorted: Seq<TableRowView>, row: TableRowView, key: SortKey) -> int
    decreases sorted.len(),
{
    if sorted.len() == 0 {
        0
    } else if row_le(key, sorted.last(), row) {
        sorted.len() as int
    } else {
        insert_pos(sorted.drop_last(), row, key)
    }
}

proof fn lemma_insert_pos(sorted: Seq<TableRowView>, row: TableRowView, key: SortKey)
    ensures
        0 <= insert_pos(sorted, row, key) <= sorted.len(),
        forall|k: int|
            insert_pos(sorted, row, key) <= k < sorted.len() ==> !row_le(
                key,
                #[trigger] sorted[k],
                row,
            ),
        insert_pos(sorted, row, key) > 0 ==> row_le(
            key,
            sorted[insert_pos(sorted, row, key) - 1],
            row,
        ),
        insert_row(sorted, row, key) == sorted.insert(insert_pos(sorted, row, key), row),
    decreases sorted.len(),
{
    if sorted.len() == 0 {
    } else if row_le(key, sorted.last(), row) {
    } else {
        lemma_insert_pos(sorted.drop_last(), row, key);
        let pos = insert_pos(sorted.drop_last(), row, key);
        assert forall|k: int| pos <= k < sorted.len() implies !row_le(
            key,
            #[trigger] sorted[k],
            row,
        ) by {
            if k < sorted.len() - 1 {
                assert(sorted.drop_last()[k] == sorted[k]);
            }
        }
        if pos > 0 {
            assert(sorted.drop_last()[pos - 1] == sorted[pos - 1]);
        }
    }
    lemma_insert_at(sorted, row, key, insert_pos(sorted, row, key));
}

/// Of two rows that can be compared, one may stand before the other.
pub proof fn lemma_row_le_total(key: SortKey, a: TableRowView, b: TableRowView)
    ensures
        row_le(key, a, b) || row_le(key, b, a),
{
}

/// Where `a` may stand before `b` and `b` before `c`, `a` may stand before
/// `c`.
pub proof fn lemma_row_le_transitive(
    key: SortKey,
    a: TableRowView,
    b: TableRowView,
    c: TableRowView,
)
    requires
        key == SortKey::Mean ==> b.mean.count > 0,
        row_le(key, a, b),
        row_le(key, b, c),
    ensures
        row_le(key, a, c),
{
    if key == SortKey::Mean {
        let at = a.mean.total as int;
        let bt = b.mean.total as int;
        let ct = c.mean.total as int;
        let ac = a.mean.count as int;
        let bc = b.mean.count as int;
        let cc = c.mean.count as int;
        assert(at * cc <= ct * ac) by (nonlinear_arith)
            requires
                at * bc <= bt * ac,
                bt * cc <= ct * bc,
                ac >= 0,
                bc > 0,
                cc >= 0,
        ;
    }
}

/// Putting a row into ordered rows leaves them ordered.
pub proof fn lemma_insert_row_ordered(sorted: Seq<TableRowView>, row: TableRowView, key: SortKey)
    requires
        ordered(sorted, key),
        comparable(sorted, key),
        key == SortKey::Mean ==> row.mean.count > 0,
    ensures
        ordered(insert_row(sorted, row, key), key),
        comparable(insert_row(sorted, row, key), key),
{
    lemma_insert_pos(sorted, row, key);
    let pos = insert_pos(sorted, row, key);
    let r = sorted.insert(pos, row);
    assert forall|i: int, j: int| 0 <= i < j < r.len() implies row_le(key, r[i], r[j]) by {
        if i == pos {
            lemma_row_le_total(key, sorted[j - 1], row);
        } else if j == pos {
            if i < pos - 1 {
                lemma_row_le_transitive(key, sorted[i], sorted[pos - 1], row);
            }
        } else if i < pos && j > pos {
            assert(r[i] == sorted[i]);
            assert(r[j] == sorted[j - 1]);
        } else if i < pos {
            assert(r[i] == sorted[i]);
            assert(r[j] == sorted[j]);
        } else {
            assert(r[i] == sorted[i - 1]);
            assert(r[j] == sorted[j - 1]);
        }
    }
    assert forall|i: int| 0 <= i < r.len() && key == SortKey::Mean implies (
    #[trigger] r[i]).mean.count > 0 by {
        if i < pos {
            assert(r[i] == sorted[i]);
        } else if i > pos {
            assert(r[i] == sorted[i - 1]);
        }
    }
}

/// Sorted rows are in ascending order.
pub proof fn lemma_sorted_rows_ordered(rows: Seq<TableRowView>, key: SortKey)
    requires
        comparable(rows, key),
    ensures
        ordered(sorted_rows(rows, key), key),
        comparable(sorted_rows(rows, key), key),
    decreases rows.len(),
{
    if rows.len() > 0 {
        assert forall|i: int|
            0 <= i < rows.drop_last().len() && key == SortKey::Mean implies (
        #[trigger] rows.drop_last()[i]).mean.count > 0 by {
            assert(rows.drop_last()[i] == rows[i]);
        }
        lemma_sorted_rows_ordered(rows.drop_last(), key);
        lemma_insert_row_ordered(sorted_rows(rows.drop_last(), key), rows.last(), key);
    }
}

/// Putting a row into rows adds that row and nothing else.
pub proof fn lemma_insert_row_keeps_rows(sorted: Seq<TableRowView>, row: TableRowView, key: SortKey)
    ensures
        insert_row(sorted, row, key).to_multiset() == sorted.to_multiset().insert(row),
    decreases sorted.len(),
{
    broadcast use vstd::seq_lib::group_to_multiset_ensures;

    if sorted.len() == 0 {
        assert(seq![row] =~= sorted.push(row));
    } else if row_le(key, sorted.last(), row) {
    } else {
        lemma_insert_row_keeps_rows(sorted.drop_last(), row, key);
        assert(sorted.drop_last().push(sorted.last()) =~= sorted);
        assert(insert_row(sorted, row, key).to_multiset() =~= sorted.to_multiset().insert(row));
    }
}

/// Sorting keeps every row, as often as it occurred.
pub proof fn lemma_sorted_rows_keep_rows(rows: Seq<TableRowView>, key: SortKey)
    ensures
        sorted_rows(rows, key).to_multiset() == rows.to_multiset(),
    decreases rows.len(),
{
    broadcast use vstd::seq_lib::group_to_multiset_ensures;

    if rows.len() > 0 {
        lemma_sorted_rows_keep_rows(rows.drop_last(), key);
        lemma_insert_row_keeps_rows(sorted_rows(rows.drop_last(), key), rows.last(), key);
        assert(rows.drop_last().push(rows.last()) =~= rows);
    }
}

/// A request that names no known ordering is answered in the order of the
/// sums.
pub proof fn lemma_unknown_sort_key_means_sum(sort: Seq<char>)
    requires
        sort != "mean"@,
        sort != "weighted"@,
    ensures
        sort_key_of(sort) == SortKey::Sum,
{
}

/// The headers and rows of a table, or the error in its place.
pub open spec fn table_is(
    r: Result<Table<Criterion, TableRow>, TallyError>,
    expected: Result<(Seq<CriterionView>, Seq<TableRowView>), TallyError>,
) -> bool {
    match r {
        Ok(t) => expected == Ok::<(Seq<CriterionView>, Seq<TableRowView>), TallyError>(
            (t.headers.deep_view(), t.rows.deep_view()),
        ),
        Err(e) => expected == Err::<(Seq<CriterionView>, Seq<TableRowView>), TallyError>(e),
    }
}

/// The table for a request for the poll `voting_id`, answered from the
/// stored poll with the given name and criteria and from stored units of
/// cast ballots: the criteria and one row for each ballot of that poll, or
/// an empty table where the stored poll is not the one asked for.
pub open spec fn collected(
    name: Seq<char>,
    categories: Seq<CriterionView>,
    voting_id: Seq<char>,
    cast: Seq<CastBallotsView>,
) -> Result<(Seq<CriterionView>, Seq<TableRowView>), TallyError> {
    if !same_voting(name, voting_id) {
        Ok((Seq::empty(), Seq::empty()))
    } else {
        match poll_rows(cast, voting_id, categories) {
            Err(e) => Err(e),
            Ok(rows) => Ok((categories, rows)),
        }
    }
}

/// The table of results for the poll `voting_id`, from the stored poll and
/// the units of cast ballots stored for it.
pub fn collect_ballots(voting: Voting, voting_id: &str, cast: Vec<CastBallots>) -> (r: Result<
    Table<Criterion, TableRow>,
    TallyError,
>)
    requires
        cast_have_votes(cast.deep_view()),
    ensures
        table_is(r, collected(voting@.name, voting@.categories, voting_id@, cast.deep_view())),
{
    if !same_poll(voting.name.as_str(), voting_id) {
        let table = Table::<Criterion, TableRow>::new(Vec::new(), Vec::new());
        assert(table.headers.deep_view() =~= Seq::<CriterionView>::empty());
        assert(table.rows.deep_view() =~= Seq::<TableRowView>::empty());
        return Ok(table);
    }
    match rows_of_poll(cast, voting_id, &voting.categories) {
        Err(e) => Err(e),
        Ok(rows) => Ok(verify_correct_voting_id(voting, voting_id, rows)),
    }
}

/// The table of results with its rows ordered by `key`.
pub open spec fn collected_sorted(
    name: Seq<char>,
    categories: Seq<CriterionView>,
    voting_id: Seq<char>,
    cast: Seq<CastBallotsView>,
    key: SortKey,
) -> Result<(Seq<CriterionView>, Seq<TableRowView>), TallyError> {
    match collected(name, categories, voting_id, cast) {
        Err(e) => Err(e),
        Ok((headers, rows)) => Ok((headers, sorted_rows(rows, key))),
    }
}

/// The table of results with its rows ordered by `key`.
pub fn collect_sorted(voting: Voting, voting_id: &str, cast: Vec<CastBallots>, key: SortKey) -> (r:
    Result<Table<Criterion, TableRow>, TallyError>)
    requires
        cast_have_votes(cast.deep_view()),
    ensures
        table_is(
            r,
            collected_sorted(voting@.name, voting@.categories, voting_id@, cast.deep_view(), key),
        ),
{
    match collect_ballots(voting, voting_id, cast) {
        Err(e) => Err(e),
        Ok(table) => {
            let rows = sort_rows(table.rows, key);
            Ok(Table::<Criterion, TableRow>::new(table.headers, rows))
        },
    }
}

/// The table of results, oldest ballot first.
pub fn ballots_by_voted_on(voting: Voting, voting_id: &str, cast: Vec<CastBallots>) -> (r: Result<
    Table<Criterion, TableRow>,
    TallyError,
>)
    requires
        cast_have_votes(cast.deep_view()),
    ensures
        table_is(
            r,
            collected_sorted(
                voting@.name,
                voting@.categories,
                voting_id@,
                cast.deep_view(),
                SortKey::VotedOn,
            ),
        ),
{
    collect_sorted(voting, voting_id, cast, SortKey::VotedOn)
}

/// The table of results in the ascending order that `sort` names.
pub fn ballots_sorted(voting: Voting, voting_id: &str, sort: &str, cast: Vec<CastBallots>) -> (r:
    Result<Table<Criterion, TableRow>, TallyError>)
    requires
        cast_have_votes(cast.deep_view()),
    ensures
        table_is(
            r,
            collected_sorted(
                voting@.name,
                voting@.categories,
                voting_id@,
                cast.deep_view(),
                sort_key_of(sort@),
            ),
        ),
{
    collect_sorted(voting, voting_id, cast, sort_key(sort))
}

/// The poll's criteria and those rows of its table that `pred` selects.
pub open spec fn collected_filtered(
    name: Seq<char>,
    categories: Seq<CriterionView>,
    voting_id: Seq<char>,
    cast: Seq<CastBallotsView>,
    pred: spec_fn(TableRowView) -> bool,
) -> Result<(Seq<CriterionView>, Seq<TableRowView>), TallyError> {
    match collected(name, categories, voting_id, cast) {
        Err(e) => Err(e),
        Ok((headers, rows)) => Ok((categories, rows.filter(pred))),
    }
}

/// The poll's criteria and the rows of voters whose name starts with
/// `voter`, letter case aside.
pub fn ballots_by_voter(voting: Voting, voting_id: &str, voter: &str, cast: Vec<CastBallots>) -> (r:
    Result<Table<Criterion, TableRow>, TallyError>)
    requires
        cast_have_votes(cast.deep_view()),
    ensures
        table_is(
            r,
            collected_filtered(
                voting@.name,
                voting@.categories,
                voting_id@,
                cast.deep_view(),
                by_voter(voter@),
            ),
        ),
{
    let headers = voting.categories.clone();
    assert(headers.deep_view() =~= voting.categories.deep_view());
    match collect_ballots(voting, voting_id, cast) {
        Err(e) => Err(e),
        Ok(table) => {
            let rows = filter_by_voter(&table.rows, voter);
            Ok(Table::<Criterion, TableRow>::new(headers, rows))
        },
    }
}

/// The poll's criteria and the rows of candidates whose name starts with
/// `candidate`, letter case aside.
pub fn ballots_by_candidate(
    voting: Voting,
    voting_id: &str,
    candidate: &str,
    cast: Vec<CastBallots>,
) -> (r: Result<Table<Criterion, TableRow>, TallyError>)
    requires
        cast_have_votes(cast.deep_view()),
    ensures
        table_is(
            r,
            collected_filtered(
                voting@.name,
                voting@.categories,
                voting_id@,
                cast.deep_view(),
                by_candidate(candidate@),
            ),
        ),
{
    let headers = voting.categories.clone();
    assert(headers.deep_view() =~= voting.categories.deep_view());
    match collect_ballots(voting, voting_id, cast) {
        Err(e) => Err(e),
        Ok(table) => {
            let rows = filter_by_candidate(&table.rows, candidate);
            Ok(Table::<Criterion, TableRow>::new(headers, rows))
        },
    }
}

/// A request for one poll that is answered from a stored poll of another
/// name gets a table without headers and rows.
pub proof fn lemma_other_voting_is_not_shown(
    name: Seq<char>,
    categories: Seq<CriterionView>,
    voting_id: Seq<char>,
    cast: Seq<CastBallotsView>,
)
    requires
        lowercase(name) != lowercase(voting_id),
    ensures
        collected(name, categories, voting_id, cast) == Ok::<
            (Seq<CriterionView>, Seq<TableRowView>),
            TallyError,
        >((Seq::empty(), Seq::empty())),
{
}

/// Someone who showed the invite code of a poll and said who they are.
#[derive(Debug)]
pub struct Voter<'r>(pub &'r str);

/// Whether `key` is the invite code of the poll.
pub fn is_correct_invite_code(key: &str, voting: &Voting) -> (r: bool)
    ensures
        r == (key@ == voting.invite_code@),
{
    same_text(key, voting.invite_code.as_str())
}

impl<'r> Voter<'r> {
    /// The voter behind a request for the poll `voting`: the request has
    /// to carry the poll's invite code and the voter's name.
    pub fn from_request(invite_code: Option<&str>, user: Option<&'r str>, voting: &Voting) -> (r:
        Result<Voter<'r>, VoteErrorKind<'r>>)
        ensures
            (match (invite_code, user) {
                (Some(code), Some(name)) => if code@ == voting.invite_code@ {
                    r is Ok && r->Ok_0.0@ == name@
                } else {
                    r is Err
                },
                _ => r is Err,
            }),
            r is Err ==> r->Err_0@ == VoteErrorView::Unauthorized("Supply an invite code."@),
    {
        match invite_code {
            Some(code) => {
                if is_correct_invite_code(code, voting) {
                    match user {
                        Some(name) => Ok(Voter(name)),
                        None => Err(
                            VoteErrorKind::Unauthorized("Supply an invite code.".to_owned()),
                        ),
                    }
                } else {
                    Err(VoteErrorKind::Unauthorized("Supply an invite code.".to_owned()))
                }
            },
            None => Err(VoteErrorKind::Unauthorized("Supply an invite code.".to_owned())),
        }
    }

    /// The voter as a stored person: the name is the id, and the label is
    /// what the id stands for.
    pub fn into_candidate(self) -> (r: Candidate)
        ensures
            r@ == (CandidateView {
                voter: true,
                id: Some(self.0@),
                label: label_of_id(self.0@),
            }),
    {
        Candidate {
            voter: true,
            id: Some(self.0.to_owned()),
            label: Candidate::get_label_from_id(self.0),
        }
    }
}

/// What is stored for a ballot that `voter` casts in the poll `voting_id`
/// at the time `now`: the ballot alone, dated `now`.
pub fn cast_ballot(voter: &str, voting_id: &str, ballot: Ballot, now: Timestamp) -> (r: CastBallots)
    ensures
        r@ == (CastBallotsView {
            voting: Some(voting_id@),
            ballots: seq![
                KnownBallotsView {
                    voter: voter@,
                    ballots: seq![BallotView { voted_on: Some(now), ..ballot@ }],
                },
            ],
        }),
{
    let mut inner_ballot = ballot;
    inner_ballot.voted_on = Some(now);
    let mut ballots: Vec<Ballot> = Vec::new();
    ballots.push(inner_ballot);
    assert(ballots.deep_view() =~= seq![BallotView { voted_on: Some(now), ..ballot@ }]);
    let mut known: Vec<KnownBallots> = Vec::new();
    known.push(KnownBallots { voter: voter.to_owned(), ballots });
    assert(known.deep_view() =~= seq![
        KnownBallotsView {
            voter: voter@,
            ballots: seq![BallotView { voted_on: Some(now), ..ballot@ }],
        },
    ]);
    CastBallots { voting: Some(voting_id.to_owned()), ballots: known }
}

/// Where the ballots of a voter in a poll can be found.
pub fn ballot_location(voting_id: &str, voter: &str) -> (r: String)
    ensures
        r@ == API_BALLOTS@ + "/"@ + voting_id@ + "/voter/"@ + voter@,
{
    let mut out = concat(API_BALLOTS, "/");
    out.append(voting_id);
    out.append("/voter/");
    out.append(voter);
    out
}

/// The answer to a cast ballot. A ballot that did not pass the checks is
/// unprocessable. One that passed and was saved is answered with the place
/// where it can be found. Where the save failed, the failure is handed on
/// with its message: a ballot that was cast before is a conflict that
/// names what exists. `saved` is only looked at for a ballot that passed.
pub fn post_ballot<'r>(
    voter: &Voter<'r>,
    voting_id: &str,
    validated: Result<bool, Status>,
    saved: Result<String, VoteErrorKind<'r>>,
) -> (r: Result<String, Refusal>)
    ensures
        (match (validated, saved) {
            (Err(_), _) => r is Err && r->Err_0.status == Status::UnprocessableEntity
                && r->Err_0.message@ == "The ballot is not valid."@,
            (Ok(_), Err(e)) => r is Err && r->Err_0.status == status_of(e@) && r->Err_0.message@
                == e@.message(),
            (Ok(_), Ok(_)) => r is Ok && r->Ok_0@ == API_BALLOTS@ + "/"@ + voting_id@ + "/voter/"@
                + voter.0@,
        }),
{
    if validated.is_ok() {
        match saved {
            Ok(_done) => Ok(ballot_location(voting_id, voter.0)),
            Err(e) => Err(refusal(&e)),
        }
    } else {
        Err(
            Refusal {
                status: Status::UnprocessableEntity,
                message: "The ballot is not valid.".to_owned(),
            },
        )
    }
}

/// One ballot as a database row holds it. The weighted score and the mean
/// are kept as the texts of the row's columns.
#[derive(Debug)]
pub struct BallotsTable {
    pub voting: String,
    pub voter: String,
    pub candidate: String,
    pub sum: i128,
    pub weighted: String,
    pub mean: String,
    pub notes: String,
    pub votes: String,
    pub voted_on: Timestamp,
}

/// What a `BallotsTable` holds.
pub struct BallotsTableView {
    pub voting: Seq<char>,
    pub voter: Seq<char>,
    pub candidate: Seq<char>,
    pub sum: i128,
    pub weighted: Seq<char>,
    pub mean: Seq<char>,
    pub notes: Seq<char>,
    pub votes: Seq<char>,
    pub voted_on: Timestamp,
}

impl View for BallotsTable {
    type V = BallotsTableView;

    open spec fn view(&self) -> BallotsTableView {
        BallotsTableView {
            voting: self.voting@,
            voter: self.voter@,
            candidate: self.candidate@,
            sum: self.sum,
            weighted: self.weighted@,
            mean: self.mean@,
            notes: self.notes@,
            votes: self.votes@,
            voted_on: self.voted_on,
        }
    }
}

/// The id of a ballot: the poll, the voter and the candidate, each in lower
/// case and joined by hyphens.
pub open spec fn ballot_id(voting: Seq<char>, voter: Seq<char>, candidate: Seq<char>) -> Seq<char> {
    lowercase(voting) + "-"@ + lowercase(voter) + "-"@ + lowercase(candidate)
}

/// `text` between single quotes.
pub open spec fn quoted(text: Seq<char>) -> Seq<char> {
    "'"@ + text + "'"@
}

/// The values of a ballot's row, each quoted, with a comma and a space
/// between them. `date` is the text of the ballot's date.
pub open spec fn ballot_values(b: BallotsTableView, date: Seq<char>) -> Seq<char> {
    quoted(ballot_id(b.voting, b.voter, b.candidate)) + ", "@ + quoted(b.candidate) + ", "@
        + quoted(b.voter) + ", "@ + quoted(decimal(b.sum as int)) + ", "@ + quoted(b.weighted)
        + ", "@ + quoted(b.mean) + ", "@ + quoted(b.notes) + ", "@ + quoted(b.votes) + ", "@
        + quoted(date)
}

/// Appends `text` between single quotes.
fn push_quoted(out: &mut String, text: &str)
    ensures
        final(out)@ == old(out)@ + quoted(text@),
{
    out.append("'");
    out.append(text);
    out.append("'");
}

/// The row that the named columns are read from, once split.
pub open spec fn ballot_columns(v: Seq<char>) -> Seq<Seq<char>> {
    split_by(v, DELIMITER@)
}

/// What the id of a ballot ends with: a hyphen, the voter, a hyphen and the
/// candidate, the names in lower case.
pub open spec fn ballot_id_tail(voter: Seq<char>, candidate: Seq<char>) -> Seq<char> {
    "-"@ + lowercase(voter) + "-"@ + lowercase(candidate)
}

/// The ballot that a stored row holds: the poll is what stands in the
/// row's id before the voter and the candidate. `None` where the row has
/// fewer than nine columns, its id does not end with its voter and its
/// candidate, or its sum or date cannot be read.
pub open spec fn ballot_of_row(v: Seq<char>) -> Option<BallotsTableView> {
    let columns = ballot_columns(v);
    if columns.len() < 9 || !ballot_id_tail(columns[2], columns[1]).is_suffix_of(columns[0])
        || integer_of(columns[3]) is None || timestamp_of(columns[8]) is None {
        None
    } else {
        Some(
            BallotsTableView {
                voting: columns[0].take(
                    columns[0].len() - ballot_id_tail(columns[2], columns[1]).len(),
                ),
                voter: columns[2],
                candidate: columns[1],
                sum: integer_of(columns[3])->0 as i128,
                weighted: columns[4],
                mean: columns[5],
                notes: columns[6],
                votes: columns[7],
                voted_on: timestamp_of(columns[8])->0,
            },
        )
    }
}

/// The unit of cast ballots that a stored row holds: the one ballot of the
/// row's voter for the row's candidate in the row's poll, with its note and
/// its date. `votes` are the votes that the text of the row's votes holds.
/// `None` where the row holds no ballot.
pub open spec fn cast_of_row(v: Seq<char>, votes: Seq<VoteView>) -> Option<CastBallotsView> {
    match ballot_of_row(v) {
        Some(b) => Some(
            CastBallotsView {
                voting: Some(b.voting),
                ballots: seq![
                    KnownBallotsView {
                        voter: b.voter,
                        ballots: seq![
                            BallotView {
                                candidate: b.candidate,
                                votes,
                                notes: Some(b.notes),
                                voted_on: Some(b.voted_on),
                            },
                        ],
                    },
                ],
            },
        ),
        None => None,
    }
}

impl CastBallots {
    /// Reads a unit of cast ballots from a stored row. `votes` are the
    /// votes that the text of the row's votes holds.
    pub fn from_str(v: &str, votes: Vec<Vote>) -> (r: Result<CastBallots, FromErrorKind>)
        ensures
            (match cast_of_row(v@, votes.deep_view()) {
                Some(c) => r is Ok && r->Ok_0@ == c,
                None => r is Err && r->Err_0@ == FromErrorView::Serialize(
                    "Ballot serialize failed."@,
                ),
            }),
    {
        match BallotsTable::from_str(v) {
            Err(e) => Err(e),
            Ok(b) => {
                let mut ballots: Vec<Ballot> = Vec::new();
                ballots.push(
                    Ballot {
                        candidate: b.candidate,
                        votes,
                        notes: Some(b.notes),
                        voted_on: Some(b.voted_on),
                    },
                );
                let ghost one = BallotView {
                    candidate: b.candidate@,
                    votes: votes.deep_view(),
                    notes: Some(b.notes@),
                    voted_on: Some(b.voted_on),
                };
                assert(ballots.deep_view() =~= seq![one]);
                let mut known: Vec<KnownBallots> = Vec::new();
                known.push(KnownBallots { voter: b.voter, ballots });
                assert(known.deep_view() =~= seq![
                    KnownBallotsView { voter: b.voter@, ballots: seq![one] },
                ]);
                Ok(CastBallots { voting: Some(b.voting), ballots: known })
            },
        }
    }
}

impl BallotsTable {
    /// Reads a ballot from a stored row.
    pub fn from_str(v: &str) -> (r: Result<Self, FromErrorKind>)
        ensures
            (match ballot_of_row(v@) {
                Some(b) => r is Ok && r->Ok_0@ == b,
                None => r is Err && r->Err_0@ == FromErrorView::Serialize(
                    "Ballot serialize failed."@,
                ),
            }),
    {
        proof {
            reveal_strlit(",-o-,");
        }
        let result = split(v, DELIMITER);
        assert(result.deep_view().len() == result.len());
        if result.len() < 9 {
            return Err(FromErrorKind::Serialize("Ballot serialize failed.".to_owned()));
        }
        assert(forall|k: int| 0 <= k < 9 ==> #[trigger] result.deep_view()[k] == result[k]@);
        let mut tail = "-".to_owned();
        tail.append(to_lowercase(result[2].as_str()).as_str());
        tail.append("-");
        tail.append(to_lowercase(result[1].as_str()).as_str());
        let voting = match strip_suffix(result[0].as_str(), tail.as_str()) {
            Some(head) => head,
            None => {
                return Err(FromErrorKind::Serialize("Ballot serialize failed.".to_owned()));
            },
        };
        let sum = match parse_integer(result[3].as_str()) {
            Some(n) => n,
            None => {
                return Err(FromErrorKind::Serialize("Ballot serialize failed.".to_owned()));
            },
        };
        let voted_on = match Timestamp::parse(result[8].as_str()) {
            Some(t) => t,
            None => {
                return Err(FromErrorKind::Serialize("Ballot serialize failed.".to_owned()));
            },
        };
        Ok(
            BallotsTable {
                voter: result[2].clone(),
                voting,
                candidate: result[1].clone(),
                sum: sum as i128,
                weighted: result[4].clone(),
                mean: result[5].clone(),
                notes: result[6].clone(),
                votes: result[7].clone(),
                voted_on,
            },
        )
    }

    /// The values of the row, for an insert. `None` where the calendar has
    /// no text for the ballot's date.
    pub fn values(&self) -> (r: Option<String>)
        ensures
            (match timestamp_text(self.voted_on.secs, self.voted_on.nanos) {
                Some(date) => r is Some && r->0@ == ballot_values(self@, date),
                None => r is None,
            }),
    {
        let date = match self.voted_on.to_text() {
            Some(d) => d,
            None => {
                return None;
            },
        };
        let mut out = String::new();
        push_quoted(&mut out, self.get_id().as_str());
        out.append(", ");
        push_quoted(&mut out, self.candidate.as_str());
        out.append(", ");
        push_quoted(&mut out, self.voter.as_str());
        out.append(", ");
        push_quoted(&mut out, decimal_text(self.sum).as_str());
        out.append(", ");
        push_quoted(&mut out, self.weighted.as_str());
        out.append(", ");
        push_quoted(&mut out, self.mean.as_str());
        out.append(", ");
        push_quoted(&mut out, self.notes.as_str());
        out.append(", ");
        push_quoted(&mut out, self.votes.as_str());
        out.append(", ");
        push_quoted(&mut out, date.as_str());
        assert(out@ =~= ballot_values(self@, date@));
        Some(out)
    }

    /// A row without content, dated `now`.
    pub fn blank(now: Timestamp) -> (r: Self)
        ensures
            r@ == (BallotsTableView {
                voting: Seq::empty(),
                voter: Seq::empty(),
                candidate: Seq::empty(),
                sum: 0,
                weighted: "0"@,
                mean: "0"@,
                notes: Seq::empty(),
                votes: Seq::empty(),
                voted_on: now,
            }),
    {
        BallotsTable {
            voting: String::new(),
            voter: String::new(),
            candidate: String::new(),
            sum: 0,
            weighted: "0".to_owned(),
            mean: "0".to_owned(),
            notes: String::new(),
            votes: String::new(),
            voted_on: now,
        }
    }
}

impl Empty for BallotsTable {
    open spec fn is_blank(&self) -> bool {
        self@ == (BallotsTableView {
            voting: Seq::empty(),
            voter: Seq::empty(),
            candidate: Seq::empty(),
            sum: 0,
            weighted: "0"@,
            mean: "0"@,
            notes: Seq::empty(),
            votes: Seq::empty(),
            voted_on: self.voted_on,
        })
    }

    fn empty() -> (r: Self) {
        BallotsTable::blank(Timestamp::now())
    }
}

impl IdGenerator for BallotsTable {
    open spec fn id_text(&self) -> Seq<char> {
        ballot_id(self.voting@, self.voter@, self.candidate@)
    }

    open spec fn generated_id_text(&self) -> Seq<char> {
        ballot_id(self.voting@, self.voter@, self.candidate@)
    }

    fn get_id(&self) -> (r: String) {
        self.generate_id()
    }

    fn generate_id(&self) -> (r: String) {
        let mut out = to_lowercase(self.voting.as_str());
        out.append("-");
        out.append(to_lowercase(self.voter.as_str()).as_str());
        out.append("-");
        out.append(to_lowercase(self.candidate.as_str()).as_str());
        out
    }
}

impl Selfaware for BallotsTable {
    open spec fn type_text(&self) -> Seq<char> {
        "CBallots"@
    }

    open spec fn name_text(&self) -> Seq<char> {
        "CBallots"@
    }

    fn get_type(&self) -> (r: String) {
        "CBallots".to_owned()
    }

    fn get_name(&self) -> (r: String) {
        "CBallots".to_owned()
    }
}

/// One ballot with all that is known of it, the poll's criteria included.
#[derive(Debug)]
pub struct CompleteBallotsTable {
    pub categories: Vec<Criterion>,
    pub voting: String,
    pub voter: String,
    pub candidate: String,
    pub sum: i128,
    pub weighted: i128,
    pub mean: Mean,
    pub notes: String,
    pub votes: String,
    pub voted_on: Timestamp,
}

/// The first ballot of the first voter of a stored unit.
pub open spec fn first_ballot(c: CastBallotsView) -> Option<BallotView> {
    if c.ballots.len() > 0 && c.ballots[0].ballots.len() > 0 {
        Some(c.ballots[0].ballots[0])
    } else {
        None
    }
}

impl CompleteBallotsTable {
    /// All that is known of the ballot that a stored unit holds: the tally
    /// of its first ballot by the criteria `categories` of its poll.
    /// `votes` is the text of the ballot's votes. `None` where the unit
    /// holds no ballot or names no poll.
    pub fn aggregate_all(c_b: CastBallots, categories: Vec<Criterion>, votes: String) -> (r: Option<
        Result<CompleteBallotsTable, TallyError>,
    >)
        requires
            first_ballot(c_b@) is Some ==> first_ballot(c_b@)->0.votes.len() >= 1,
        ensures
            r is Some <==> first_ballot(c_b@) is Some && c_b.voting is Some,
            r is Some ==> (match ballot_tally(first_ballot(c_b@)->0, categories.deep_view()) {
                Err(e) => r->0 == Err::<CompleteBallotsTable, TallyError>(e),
                Ok(t) => r->0 is Ok && {
                    let row = r->0->Ok_0;
                    &&& row.categories == categories
                    &&& row.voting@ == c_b@.voting->0
                    &&& row.voter@ == c_b@.ballots[0].voter
                    &&& row.candidate@ == t.candidate
                    &&& row.sum == t.sum
                    &&& row.weighted == t.weighted
                    &&& row.mean == t.mean
                    &&& row.notes@ == t.notes
                    &&& row.votes == votes
                    &&& row.voted_on == t.voted_on
                },
            }),
    {
        if c_b.ballots.len() == 0 {
            return None;
        }
        let known = &c_b.ballots[0];
        assert(c_b.ballots.deep_view()[0] == known@);
        if known.ballots.len() == 0 {
            return None;
        }
        let ballot = &known.ballots[0];
        assert(known.ballots.deep_view()[0] == ballot@);
        let voting = match &c_b.voting {
            Some(v) => v.clone(),
            None => {
                return None;
            },
        };
        match tally_ballot(ballot, &categories) {
            Err(e) => Some(Err(e)),
            Ok(t) => Some(
                Ok(
                    CompleteBallotsTable {
                        categories,
                        voter: known.voter.clone(),
                        voting,
                        candidate: t.candidate,
                        sum: t.sum,
                        weighted: t.weighted,
                        mean: t.mean,
                        notes: t.notes,
                        votes,
                        voted_on: t.voted_on,
                    },
                ),
            ),
        }
    }

    /// The database row for the ballot. `weighted` and `mean` are the texts
    /// of the weighted score and of the mean.
    pub fn into_table(self, weighted: String, mean: String) -> (r: BallotsTable)
        ensures
            r@ == (BallotsTableView {
                voting: self.voting@,
                voter: self.voter@,
                candidate: self.candidate@,
                sum: self.sum,
                weighted: weighted@,
                mean: mean@,
                notes: self.notes@,
                votes: self.votes@,
                voted_on: self.voted_on,
            }),
    {
        BallotsTable {
            voter: self.voter,
            voting: self.voting,
            candidate: self.candidate,
            sum: self.sum,
            weighted,
            mean,
            notes: self.notes,
            votes: self.votes,
            voted_on: self.voted_on,
        }
    }
}

impl TableRow {
    /// The row of the table of results for a database row. `weighted` and
    /// `votes` are what the texts of the row's columns hold; the mean is
    /// the row's sum over the number of its votes.
    pub fn from_table(b_t: &BallotsTable, weighted: i128, votes: Vec<Vote>) -> (r: TableRow)
        ensures
            r@ == (TableRowView {
                voting: b_t.voting@,
                voter: b_t.voter@,
                candidate: b_t.candidate@,
                sum: b_t.sum,
                weighted,
                mean: Mean { total: b_t.sum, count: votes.len() },
                notes: b_t.notes@,
                votes: votes.deep_view(),
                voted_on: b_t.voted_on,
            }),
    {
        TableRow {
            voting: b_t.voting.clone(),
            voter: b_t.voter.clone(),
            candidate: b_t.candidate.clone(),
            sum: b_t.sum,
            weighted,
            mean: Mean { total: b_t.sum, count: votes.len() },
            notes: b_t.notes.clone(),
            votes,
            voted_on: b_t.voted_on,
        }
    }

    /// The database row for a row of the table of results. `weighted`,
    /// `mean` and `votes` are the texts for the row's columns.
    pub fn into_table(self, weighted: String, mean: String, votes: String) -> (r: BallotsTable)
        ensures
            r@ == (BallotsTableView {
                voting: self.voting@,
                voter: self.voter@,
                candidate: self.candidate@,
                sum: self.sum,
                weighted: weighted@,
                mean: mean@,
                notes: self.notes@,
                votes: votes@,
                voted_on: self.voted_on,
            }),
    {
        BallotsTable {
            voting: self.voting,
            voter: self.voter,
            candidate: self.candidate,
            sum: self.sum,
            weighted,
            mean,
            notes: self.notes,
            votes,
            voted_on: self.voted_on,
        }
    }
}


impl VVTable for BallotsTable {
    open spec fn identity_column_text() -> Seq<char> {
        "human_identifier"@
    }

    open spec fn id_expression_text() -> Seq<char> {
        "human_identifier"@
    }

    open spec fn table_text(insert: bool) -> Seq<char> {
        CastBallots::table_text(insert)
    }

    open spec fn columns_text() -> Seq<char> {
        "human_identifier, candidate, voter, sum, weighted, mean, notes, votes, voted_on"@
    }

    open spec fn row_text(&self) -> Seq<char> {
        match timestamp_text(self.voted_on.secs, self.voted_on.nanos) {
            Some(date) => ballot_values(self@, date),
            None => Seq::empty(),
        }
    }

    fn get_id_expression() -> (r: String) {
        "human_identifier".to_owned()
    }

    fn get_identity_column_name() -> (r: String) {
        "human_identifier".to_owned()
    }

    fn get_table(insert: bool) -> (r: String) {
        CastBallots::get_table(insert)
    }

    fn get_db_columns() -> (r: String) {
        CastBallots::properties(false)
    }

    /// The values of the row; nothing where the calendar has no text for
    /// the ballot's date.
    fn to_db_row(&self) -> (r: String) {
        match self.values() {
            Some(row) => row,
            None => String::new(),
        }
    }
}

impl QueryableExt for BallotsTable {

}

} // verus!
