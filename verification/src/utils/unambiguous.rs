use vstd::prelude::*;
use vstd::utf8::{encode_utf8, encode_utf8_decode_utf8};
use crate::types::blockchain::{
    all_valid, ActionType, EvaluationResult, EvaluationVote, ModelModificationView,
    ModelParametersView, PayloadDataView, TransactionView, VoteVerdict,
};
use crate::utils::hasher::{digest_of, hex, joined, sha256, transactions_digest, transactions_json};
use crate::utils::json::{
    escaped, escaped_char, hex_digit, is_digit, is_number, number_state, quoted, NumberState,
};

verus! {

/// Two texts that start alike and are equal go on alike.
proof fn lemma_same_start<A>(start: Seq<A>, x: Seq<A>, y: Seq<A>)
    requires
        start + x == start + y,
    ensures
        x == y,
{
    assert(x =~= (start + x).subrange(start.len() as int, (start + x).len() as int));
    assert(y =~= (start + y).subrange(start.len() as int, (start + y).len() as int));
}

/// Texts joined one behind the other read the same however they are grouped.
proof fn lemma_regroup(x: Seq<char>, y: Seq<char>, z: Seq<char>)
    ensures
        (x + y) + z == x + (y + z),
{
    assert((x + y) + z =~= x + (y + z));
}

/// An object of four fields, and what follows it, as a chain of parts from the left.
proof fn lemma_regroup_four(
    a0: Seq<char>,
    f1: Seq<char>,
    a1: Seq<char>,
    f2: Seq<char>,
    a2: Seq<char>,
    f3: Seq<char>,
    a3: Seq<char>,
    f4: Seq<char>,
    a4: Seq<char>,
    r: Seq<char>,
)
    ensures
        a0 + f1 + a1 + f2 + a2 + f3 + a3 + f4 + a4 + r == a0 + (f1 + (a1 + (f2 + (a2 + (f3 + (a3
            + (f4 + (a4 + r)))))))),
{
    let t8 = a4 + r;
    let t7 = f4 + t8;
    let t6 = a3 + t7;
    let t5 = f3 + t6;
    let t4 = a2 + t5;
    let t3 = f2 + t4;
    let t2 = a1 + t3;
    let t1 = f1 + t2;
    lemma_regroup(a0 + f1 + a1 + f2 + a2 + f3 + a3 + f4, a4, r);
    lemma_regroup(a0 + f1 + a1 + f2 + a2 + f3 + a3, f4, t8);
    lemma_regroup(a0 + f1 + a1 + f2 + a2 + f3, a3, t7);
    lemma_regroup(a0 + f1 + a1 + f2 + a2, f3, t6);
    lemma_regroup(a0 + f1 + a1 + f2, a2, t5);
    lemma_regroup(a0 + f1 + a1, f2, t4);
    lemma_regroup(a0 + f1, a1, t3);
    lemma_regroup(a0, f1, t2);
}

/// An object of five fields, and what follows it, as a chain of parts from the left.
proof fn lemma_regroup_five(
    a0: Seq<char>,
    f1: Seq<char>,
    a1: Seq<char>,
    f2: Seq<char>,
    a2: Seq<char>,
    f3: Seq<char>,
    a3: Seq<char>,
    f4: Seq<char>,
    a4: Seq<char>,
    f5: Seq<char>,
    a5: Seq<char>,
    r: Seq<char>,
)
    ensures
        a0 + f1 + a1 + f2 + a2 + f3 + a3 + f4 + a4 + f5 + a5 + r == a0 + (f1 + (a1 + (f2 + (a2 + (
            f3 + (a3 + (f4 + (a4 + (f5 + (a5 + r)))))))))),
{
    let t10 = a5 + r;
    let t9 = f5 + t10;
    lemma_regroup(a0 + f1 + a1 + f2 + a2 + f3 + a3 + f4 + a4 + f5, a5, r);
    lemma_regroup(a0 + f1 + a1 + f2 + a2 + f3 + a3 + f4 + a4, f5, t10);
    lemma_regroup_four(a0, f1, a1, f2, a2, f3, a3, f4, a4, t9);
}

/// A hexadecimal digit tells its number.
proof fn lemma_hex_digit_tells(a: int, b: int)
    requires
        0 <= a < 16,
        0 <= b < 16,
        hex_digit(a) == hex_digit(b),
    ensures
        a == b,
{
}

/// The escaped characters of a text, read from its first character on.
proof fn lemma_escaped_from_the_front(s: Seq<char>)
    requires
        s.len() > 0,
    ensures
        escaped(s) == escaped_char(s.first()) + escaped(s.drop_first()),
    decreases s.len(),
{
    if s.len() == 1 {
        assert(s.drop_last() =~= Seq::empty());
        assert(s.drop_first() =~= Seq::empty());
        assert(escaped(s.drop_last()) =~= Seq::empty());
        assert(escaped(s) =~= escaped_char(s.first()) + escaped(s.drop_first()));
    } else {
        lemma_escaped_from_the_front(s.drop_last());
        assert(s.drop_last().drop_first() =~= s.drop_first().drop_last());
        assert(s.drop_last().first() == s.first());
        assert(s.drop_first().last() == s.last());
        assert(escaped(s) =~= escaped_char(s.first()) + escaped(s.drop_first()));
    }
}

/// What stands for one character inside a JSON string tells the character, whatever
/// follows.
proof fn lemma_escaped_char_tells(c1: char, c2: char, r1: Seq<char>, r2: Seq<char>)
    requires
        escaped_char(c1) + r1 == escaped_char(c2) + r2,
    ensures
        c1 == c2,
        r1 == r2,
{
    let e1 = escaped_char(c1);
    let e2 = escaped_char(c2);
    let x = e1 + r1;
    let y = e2 + r2;
    assert(x[0] == y[0]);
    assert(x[0] == e1[0]);
    assert(y[0] == e2[0]);
    if e1.len() >= 2 || e2.len() >= 2 {
        assert(e1[0] == '\\' || e2[0] == '\\');
        assert(e1.len() >= 2 && e2.len() >= 2);
        assert(x[1] == e1[1]);
        assert(y[1] == e2[1]);
        if e1.len() == 6 || e2.len() == 6 {
            assert(e1[1] == 'u' || e2[1] == 'u');
            assert(e1.len() == 6 && e2.len() == 6);
            assert(x[4] == e1[4]);
            assert(y[4] == e2[4]);
            assert(x[5] == e1[5]);
            assert(y[5] == e2[5]);
            let n1 = (c1 as u32) as int;
            let n2 = (c2 as u32) as int;
            lemma_hex_digit_tells(n1 / 16, n2 / 16);
            lemma_hex_digit_tells(n1 % 16, n2 % 16);
            assert(n1 == n2);
        }
    }
    assert(c1 == c2);
    lemma_same_start(e1, r1, r2);
}

/// The escaped characters of a text, closed by a quote, tell the text, whatever follows.
proof fn lemma_escaped_tells(s1: Seq<char>, s2: Seq<char>, r1: Seq<char>, r2: Seq<char>)
    requires
        escaped(s1) + seq!['"'] + r1 == escaped(s2) + seq!['"'] + r2,
    ensures
        s1 == s2,
        r1 == r2,
    decreases s1.len(),
{
    let x = escaped(s1) + seq!['"'] + r1;
    let y = escaped(s2) + seq!['"'] + r2;
    if s1.len() == 0 {
        assert(x[0] == '"');
        if s2.len() > 0 {
            lemma_escaped_from_the_front(s2);
            assert(y[0] == escaped_char(s2.first())[0]);
            assert(false);
        }
        assert(s1 =~= s2);
        lemma_same_start(escaped(s1) + seq!['"'], r1, r2);
    } else {
        lemma_escaped_from_the_front(s1);
        if s2.len() == 0 {
            assert(y[0] == '"');
            assert(x[0] == escaped_char(s1.first())[0]);
            assert(false);
        }
        lemma_escaped_from_the_front(s2);
        let t1 = escaped(s1.drop_first()) + seq!['"'] + r1;
        let t2 = escaped(s2.drop_first()) + seq!['"'] + r2;
        assert(x =~= escaped_char(s1.first()) + t1);
        assert(y =~= escaped_char(s2.first()) + t2);
        lemma_escaped_char_tells(s1.first(), s2.first(), t1, t2);
        lemma_escaped_tells(s1.drop_first(), s2.drop_first(), r1, r2);
        assert(s1 =~= seq![s1.first()] + s1.drop_first());
        assert(s2 =~= seq![s2.first()] + s2.drop_first());
    }
}

/// A JSON string tells the text it holds, whatever follows it.
pub proof fn lemma_quoted_tells(s1: Seq<char>, s2: Seq<char>, r1: Seq<char>, r2: Seq<char>)
    requires
        quoted(s1) + r1 == quoted(s2) + r2,
    ensures
        s1 == s2,
        r1 == r2,
{
    let t1 = escaped(s1) + seq!['"'] + r1;
    let t2 = escaped(s2) + seq!['"'] + r2;
    assert(quoted(s1) + r1 =~= seq!['"'] + t1);
    assert(quoted(s2) + r2 =~= seq!['"'] + t2);
    lemma_same_start(seq!['"'], t1, t2);
    lemma_escaped_tells(s1, s2, r1, r2);
}

/// Whether `c` can stand in a number: a digit, a sign, the point or the mark of an
/// exponent.
pub open spec fn is_number_char(c: char) -> bool {
    is_digit(c) || c == '-' || c == '+' || c == '.' || c == 'e' || c == 'E'
}

/// A reading that has not gone wrong has met only characters that can stand in a number.
proof fn lemma_number_chars(s: Seq<char>)
    requires
        number_state(s) != NumberState::Wrong,
    ensures
        forall|i: int| 0 <= i < s.len() ==> is_number_char(#[trigger] s[i]),
    decreases s.len(),
{
    if s.len() > 0 {
        lemma_number_chars(s.drop_last());
        assert forall|i: int| 0 <= i < s.len() implies is_number_char(#[trigger] s[i]) by {
            if i < s.len() - 1 {
                assert(s[i] == s.drop_last()[i]);
            }
        }
    }
}

/// A number tells itself apart from what follows it, where that starts with a character
/// that cannot stand in a number.
proof fn lemma_number_tells(n1: Seq<char>, n2: Seq<char>, r1: Seq<char>, r2: Seq<char>)
    requires
        is_number(n1),
        is_number(n2),
        r1.len() > 0 && !is_number_char(r1[0]),
        r2.len() > 0 && !is_number_char(r2[0]),
        n1 + r1 == n2 + r2,
    ensures
        n1 == n2,
        r1 == r2,
{
    lemma_number_chars(n1);
    lemma_number_chars(n2);
    let x = n1 + r1;
    let y = n2 + r2;
    if n1.len() < n2.len() {
        assert(x[n1.len() as int] == r1[0]);
        assert(y[n1.len() as int] == n2[n1.len() as int]);
        assert(false);
    }
    if n2.len() < n1.len() {
        assert(y[n2.len() as int] == r2[0]);
        assert(x[n2.len() as int] == n1[n2.len() as int]);
        assert(false);
    }
    assert(n1 =~= x.subrange(0, n1.len() as int));
    assert(n2 =~= y.subrange(0, n2.len() as int));
    lemma_same_start(n1, r1, r2);
}

/// The name of a verdict, closed by a quote, tells the verdict.
proof fn lemma_verdict_tells(v1: VoteVerdict, v2: VoteVerdict, r1: Seq<char>, r2: Seq<char>)
    requires
        v1.name() + r1 == v2.name() + r2,
    ensures
        v1 == v2,
        r1 == r2,
{
    reveal_strlit("Accept");
    reveal_strlit("Reject");
    let x = v1.name() + r1;
    let y = v2.name() + r2;
    assert(x[0] == v1.name()[0]);
    assert(y[0] == v2.name()[0]);
    lemma_same_start(v1.name(), r1, r2);
}

/// The name of a vote on a block tells the vote.
proof fn lemma_evaluation_tells(
    v1: EvaluationVote,
    v2: EvaluationVote,
    r1: Seq<char>,
    r2: Seq<char>,
)
    requires
        v1.name() + r1 == v2.name() + r2,
    ensures
        v1 == v2,
        r1 == r2,
{
    reveal_strlit("ValidateBlock");
    reveal_strlit("FlagConflict");
    let x = v1.name() + r1;
    let y = v2.name() + r2;
    assert(x[0] == v1.name()[0]);
    assert(y[0] == v2.name()[0]);
    lemma_same_start(v1.name(), r1, r2);
}

/// The name of an action tells the action.
proof fn lemma_action_tells(a1: ActionType, a2: ActionType, r1: Seq<char>, r2: Seq<char>)
    requires
        a1.name() + r1 == a2.name() + r2,
    ensures
        a1 == a2,
        r1 == r2,
{
    reveal_strlit("ProposeUpdate");
    reveal_strlit("EvaluateUpdate");
    reveal_strlit("VoteAccept");
    reveal_strlit("VoteReject");
    reveal_strlit("FlagMalicious");
    reveal_strlit("FinalizeBlock");
    let x = a1.name() + r1;
    let y = a2.name() + r2;
    assert(x[0] == a1.name()[0]);
    assert(y[0] == a2.name()[0]);
    assert(x[1] == a1.name()[1]);
    assert(y[1] == a2.name()[1]);
    assert(x[4] == a1.name()[4]);
    assert(y[4] == a2.name()[4]);
    lemma_same_start(a1.name(), r1, r2);
}

/// The JSON object of a modification tells the modification, whatever follows it.
proof fn lemma_modification_tells(
    m1: ModelModificationView,
    m2: ModelModificationView,
    r1: Seq<char>,
    r2: Seq<char>,
)
    requires
        m1.json() + r1 == m2.json() + r2,
    ensures
        m1 == m2,
        r1 == r2,
{
    let a0 = "{\"model_hash\":"@;
    let a1 = ",\"cid\":"@;
    let a2 = ",\"description\":"@;
    let a3 = ",\"validation_proof\":"@;
    let a4 = "}"@;
    let x3 = a4 + r1;
    let y3 = a4 + r2;
    let x2 = a3 + (quoted(m1.validation_proof) + x3);
    let y2 = a3 + (quoted(m2.validation_proof) + y3);
    let x1 = a2 + (quoted(m1.description) + x2);
    let y1 = a2 + (quoted(m2.description) + y2);
    let x0 = a1 + (quoted(m1.cid) + x1);
    let y0 = a1 + (quoted(m2.cid) + y1);
    lemma_regroup_four(
        a0,
        quoted(m1.model_hash),
        a1,
        quoted(m1.cid),
        a2,
        quoted(m1.description),
        a3,
        quoted(m1.validation_proof),
        a4,
        r1,
    );
    lemma_regroup_four(
        a0,
        quoted(m2.model_hash),
        a1,
        quoted(m2.cid),
        a2,
        quoted(m2.description),
        a3,
        quoted(m2.validation_proof),
        a4,
        r2,
    );
    lemma_same_start(a0, quoted(m1.model_hash) + x0, quoted(m2.model_hash) + y0);
    lemma_quoted_tells(m1.model_hash, m2.model_hash, x0, y0);
    lemma_same_start(a1, quoted(m1.cid) + x1, quoted(m2.cid) + y1);
    lemma_quoted_tells(m1.cid, m2.cid, x1, y1);
    lemma_same_start(a2, quoted(m1.description) + x2, quoted(m2.description) + y2);
    lemma_quoted_tells(m1.description, m2.description, x2, y2);
    lemma_same_start(a3, quoted(m1.validation_proof) + x3, quoted(m2.validation_proof) + y3);
    lemma_quoted_tells(m1.validation_proof, m2.validation_proof, x3, y3);
    lemma_same_start(a4, r1, r2);
}

/// The JSON object of figures that are numbers tells the figures, whatever follows it.
proof fn lemma_parameters_tell(
    m1: ModelParametersView,
    m2: ModelParametersView,
    r1: Seq<char>,
    r2: Seq<char>,
)
    requires
        m1.valid(),
        m2.valid(),
        m1.json() + r1 == m2.json() + r2,
    ensures
        m1 == m2,
        r1 == r2,
{
    let a0 = "{\"update_id\":"@;
    let a1 = ",\"confidence\":"@;
    let a2 = ",\"score\":"@;
    let a3 = "}"@;
    reveal_strlit(",\"score\":");
    reveal_strlit("}");
    let x2 = a3 + r1;
    let y2 = a3 + r2;
    let x1 = a2 + (m1.score + x2);
    let y1 = a2 + (m2.score + y2);
    let x0 = a1 + (m1.confidence + x1);
    let y0 = a1 + (m2.confidence + y1);
    assert(m1.json() + r1 =~= a0 + (quoted(m1.update_id) + x0));
    assert(m2.json() + r2 =~= a0 + (quoted(m2.update_id) + y0));
    lemma_same_start(a0, quoted(m1.update_id) + x0, quoted(m2.update_id) + y0);
    lemma_quoted_tells(m1.update_id, m2.update_id, x0, y0);
    lemma_same_start(a1, m1.confidence + x1, m2.confidence + y1);
    assert(x1[0] == ',');
    assert(y1[0] == ',');
    lemma_number_tells(m1.confidence, m2.confidence, x1, y1);
    lemma_same_start(a2, m1.score + x2, m2.score + y2);
    assert(x2[0] == '}');
    assert(y2[0] == '}');
    lemma_number_tells(m1.score, m2.score, x2, y2);
    lemma_same_start(a3, r1, r2);
}

/// The JSON text of an optional verdict tells it, whatever follows.
proof fn lemma_optional_verdict_tells(
    e1: EvaluationResult,
    e2: EvaluationResult,
    r1: Seq<char>,
    r2: Seq<char>,
)
    requires
        e1.vote_json() + r1 == e2.vote_json() + r2,
    ensures
        e1.vote == e2.vote,
        r1 == r2,
{
    reveal_strlit("null");
    reveal_strlit("\"");
    reveal_strlit("Accept");
    reveal_strlit("Reject");
    let x = e1.vote_json() + r1;
    let y = e2.vote_json() + r2;
    assert(x[0] == e1.vote_json()[0]);
    assert(y[0] == e2.vote_json()[0]);
    match (e1.vote, e2.vote) {
        (Some(v1), Some(v2)) => {
            let q = "\""@;
            assert(x =~= q + (v1.name() + (q + r1)));
            assert(y =~= q + (v2.name() + (q + r2)));
            lemma_same_start(q, v1.name() + (q + r1), v2.name() + (q + r2));
            lemma_verdict_tells(v1, v2, q + r1, q + r2);
            lemma_same_start(q, r1, r2);
        },
        (None, None) => {
            lemma_same_start("null"@, r1, r2);
        },
        _ => {
            assert(false);
        },
    }
}

/// The JSON text of an optional vote on a block tells it, whatever follows.
proof fn lemma_optional_evaluation_tells(
    e1: EvaluationResult,
    e2: EvaluationResult,
    r1: Seq<char>,
    r2: Seq<char>,
)
    requires
        e1.evaluation_json() + r1 == e2.evaluation_json() + r2,
    ensures
        e1.evaluation == e2.evaluation,
        r1 == r2,
{
    reveal_strlit("null");
    reveal_strlit("\"");
    reveal_strlit("ValidateBlock");
    reveal_strlit("FlagConflict");
    let x = e1.evaluation_json() + r1;
    let y = e2.evaluation_json() + r2;
    assert(x[0] == e1.evaluation_json()[0]);
    assert(y[0] == e2.evaluation_json()[0]);
    match (e1.evaluation, e2.evaluation) {
        (Some(v1), Some(v2)) => {
            let q = "\""@;
            assert(x =~= q + (v1.name() + (q + r1)));
            assert(y =~= q + (v2.name() + (q + r2)));
            lemma_same_start(q, v1.name() + (q + r1), v2.name() + (q + r2));
            lemma_evaluation_tells(v1, v2, q + r1, q + r2);
            lemma_same_start(q, r1, r2);
        },
        (None, None) => {
            lemma_same_start("null"@, r1, r2);
        },
        _ => {
            assert(false);
        },
    }
}

/// The JSON object of an evaluation tells the evaluation, whatever follows it.
proof fn lemma_result_tells(
    e1: EvaluationResult,
    e2: EvaluationResult,
    r1: Seq<char>,
    r2: Seq<char>,
)
    requires
        e1.json() + r1 == e2.json() + r2,
    ensures
        e1 == e2,
        r1 == r2,
{
    let a0 = "{\"vote\":"@;
    let a1 = ",\"evaluation\":"@;
    let a2 = "}"@;
    let x1 = a2 + r1;
    let y1 = a2 + r2;
    let x0 = a1 + (e1.evaluation_json() + x1);
    let y0 = a1 + (e2.evaluation_json() + y1);
    assert(e1.json() + r1 =~= a0 + (e1.vote_json() + x0));
    assert(e2.json() + r2 =~= a0 + (e2.vote_json() + y0));
    lemma_same_start(a0, e1.vote_json() + x0, e2.vote_json() + y0);
    lemma_optional_verdict_tells(e1, e2, x0, y0);
    lemma_same_start(a1, e1.evaluation_json() + x1, e2.evaluation_json() + y1);
    lemma_optional_evaluation_tells(e1, e2, x1, y1);
    lemma_same_start(a2, r1, r2);
}

/// The JSON object of a valid payload tells the payload, whatever follows it.
proof fn lemma_payload_tells(pa: PayloadDataView, pb: PayloadDataView, r1: Seq<char>, r2: Seq<char>)
    requires
        pa.valid(),
        pb.valid(),
        pa.json() + r1 == pb.json() + r2,
    ensures
        pa == pb,
        r1 == r2,
{
    let a0 = "{\"model_modification\":"@;
    let a1 = ",\"model_parameters\":"@;
    let a2 = ",\"evaluation_result\":"@;
    let a3 = ",\"description\":"@;
    let a4 = "}"@;
    reveal_strlit("null");
    reveal_strlit("{\"model_hash\":");
    reveal_strlit("{\"update_id\":");
    reveal_strlit("{\"vote\":");
    let x3 = a4 + r1;
    let y3 = a4 + r2;
    let x2 = a3 + (quoted(pa.description) + x3);
    let y2 = a3 + (quoted(pb.description) + y3);
    let x1 = a2 + (pa.evaluation_result_json() + x2);
    let y1 = a2 + (pb.evaluation_result_json() + y2);
    let x0 = a1 + (pa.model_parameters_json() + x1);
    let y0 = a1 + (pb.model_parameters_json() + y1);
    lemma_regroup_four(
        a0,
        pa.model_modification_json(),
        a1,
        pa.model_parameters_json(),
        a2,
        pa.evaluation_result_json(),
        a3,
        quoted(pa.description),
        a4,
        r1,
    );
    lemma_regroup_four(
        a0,
        pb.model_modification_json(),
        a1,
        pb.model_parameters_json(),
        a2,
        pb.evaluation_result_json(),
        a3,
        quoted(pb.description),
        a4,
        r2,
    );
    lemma_same_start(a0, pa.model_modification_json() + x0, pb.model_modification_json() + y0);
    assert(pa.model_modification == pb.model_modification && x0 == y0) by {
        let u = pa.model_modification_json() + x0;
        let v = pb.model_modification_json() + y0;
        assert(u[0] == pa.model_modification_json()[0]);
        assert(v[0] == pb.model_modification_json()[0]);
        match (pa.model_modification, pb.model_modification) {
            (Some(m1), Some(m2)) => {
                lemma_modification_tells(m1, m2, x0, y0);
            },
            (None, None) => {
                lemma_same_start("null"@, x0, y0);
            },
            (Some(m1), None) => {
                assert(m1.json()[0] == '{');
                assert(false);
            },
            (None, Some(m2)) => {
                assert(m2.json()[0] == '{');
                assert(false);
            },
        }
    }
    lemma_same_start(a1, pa.model_parameters_json() + x1, pb.model_parameters_json() + y1);
    assert(pa.model_parameters == pb.model_parameters && x1 == y1) by {
        let u = pa.model_parameters_json() + x1;
        let v = pb.model_parameters_json() + y1;
        assert(u[0] == pa.model_parameters_json()[0]);
        assert(v[0] == pb.model_parameters_json()[0]);
        match (pa.model_parameters, pb.model_parameters) {
            (Some(m1), Some(m2)) => {
                lemma_parameters_tell(m1, m2, x1, y1);
            },
            (None, None) => {
                lemma_same_start("null"@, x1, y1);
            },
            (Some(m1), None) => {
                assert(m1.json()[0] == '{');
                assert(false);
            },
            (None, Some(m2)) => {
                assert(m2.json()[0] == '{');
                assert(false);
            },
        }
    }
    lemma_same_start(a2, pa.evaluation_result_json() + x2, pb.evaluation_result_json() + y2);
    assert(pa.evaluation_result == pb.evaluation_result && x2 == y2) by {
        let u = pa.evaluation_result_json() + x2;
        let v = pb.evaluation_result_json() + y2;
        assert(u[0] == pa.evaluation_result_json()[0]);
        assert(v[0] == pb.evaluation_result_json()[0]);
        match (pa.evaluation_result, pb.evaluation_result) {
            (Some(m1), Some(m2)) => {
                lemma_result_tells(m1, m2, x2, y2);
            },
            (None, None) => {
                lemma_same_start("null"@, x2, y2);
            },
            (Some(m1), None) => {
                assert(m1.json()[0] == '{');
                assert(false);
            },
            (None, Some(m2)) => {
                assert(m2.json()[0] == '{');
                assert(false);
            },
        }
    }
    lemma_same_start(a3, quoted(pa.description) + x3, quoted(pb.description) + y3);
    lemma_quoted_tells(pa.description, pb.description, x3, y3);
    lemma_same_start(a4, r1, r2);
}

/// The JSON object of a valid transaction tells the transaction, whatever follows it.
pub proof fn lemma_transaction_tells(
    t1: TransactionView,
    t2: TransactionView,
    r1: Seq<char>,
    r2: Seq<char>,
)
    requires
        t1.valid(),
        t2.valid(),
        t1.json() + r1 == t2.json() + r2,
    ensures
        t1 == t2,
        r1 == r2,
{
    let a0 = "{\"agent_id\":"@;
    let a1 = ",\"signature\":"@;
    let a2 = ",\"reasoning_hash\":"@;
    let a3 = ",\"action_type\":\""@;
    let a4 = "\",\"payload\":"@;
    let a5 = "}"@;
    let x4 = a5 + r1;
    let y4 = a5 + r2;
    let x3 = a4 + (t1.payload.json() + x4);
    let y3 = a4 + (t2.payload.json() + y4);
    let x2 = a3 + (t1.action_type.name() + x3);
    let y2 = a3 + (t2.action_type.name() + y3);
    let x1 = a2 + (quoted(t1.reasoning_hash) + x2);
    let y1 = a2 + (quoted(t2.reasoning_hash) + y2);
    let x0 = a1 + (quoted(t1.signature) + x1);
    let y0 = a1 + (quoted(t2.signature) + y1);
    lemma_regroup_five(
        a0,
        quoted(t1.agent_id),
        a1,
        quoted(t1.signature),
        a2,
        quoted(t1.reasoning_hash),
        a3,
        t1.action_type.name(),
        a4,
        t1.payload.json(),
        a5,
        r1,
    );
    lemma_regroup_five(
        a0,
        quoted(t2.agent_id),
        a1,
        quoted(t2.signature),
        a2,
        quoted(t2.reasoning_hash),
        a3,
        t2.action_type.name(),
        a4,
        t2.payload.json(),
        a5,
        r2,
    );
    lemma_same_start(a0, quoted(t1.agent_id) + x0, quoted(t2.agent_id) + y0);
    lemma_quoted_tells(t1.agent_id, t2.agent_id, x0, y0);
    lemma_same_start(a1, quoted(t1.signature) + x1, quoted(t2.signature) + y1);
    lemma_quoted_tells(t1.signature, t2.signature, x1, y1);
    lemma_same_start(a2, quoted(t1.reasoning_hash) + x2, quoted(t2.reasoning_hash) + y2);
    lemma_quoted_tells(t1.reasoning_hash, t2.reasoning_hash, x2, y2);
    lemma_same_start(a3, t1.action_type.name() + x3, t2.action_type.name() + y3);
    lemma_action_tells(t1.action_type, t2.action_type, x3, y3);
    lemma_same_start(a4, t1.payload.json() + x4, t2.payload.json() + y4);
    lemma_payload_tells(t1.payload, t2.payload, x4, y4);
    lemma_same_start(a5, r1, r2);
}

/// What follows the first transaction in the joined texts of `s`: nothing where it is the
/// only one, else a comma and the joined texts of the others.
spec fn after_first(s: Seq<TransactionView>) -> Seq<char> {
    if s.len() <= 1 {
        Seq::empty()
    } else {
        ","@ + joined(s.drop_first())
    }
}

/// The joined texts of transactions, read from the first transaction on.
proof fn lemma_joined_from_the_front(s: Seq<TransactionView>)
    requires
        s.len() > 0,
    ensures
        joined(s) == s.first().json() + after_first(s),
    decreases s.len(),
{
    if s.len() == 1 {
        assert(joined(s) =~= s.first().json() + after_first(s));
    } else {
        let most = s.drop_last();
        let others = s.drop_first();
        lemma_joined_from_the_front(most);
        assert(most.first() == s.first());
        assert(others.last() == s.last());
        if s.len() == 2 {
            assert(others.len() == 1);
            assert(others[0] == s.last());
            assert(joined(s) =~= s.first().json() + after_first(s));
        } else {
            assert(most.drop_first() =~= others.drop_last());
            lemma_regroup(s.first().json(), after_first(most), ","@);
            lemma_regroup(s.first().json(), after_first(most) + ","@, s.last().json());
            lemma_regroup(","@, joined(most.drop_first()), ","@);
            lemma_regroup(","@, joined(most.drop_first()) + ","@, s.last().json());
        }
    }
}

/// The joined texts of valid transactions, closed by a bracket, tell the transactions,
/// whatever follows.
proof fn lemma_joined_tells(
    a: Seq<TransactionView>,
    b: Seq<TransactionView>,
    r1: Seq<char>,
    r2: Seq<char>,
)
    requires
        all_valid(a),
        all_valid(b),
        joined(a) + "]"@ + r1 == joined(b) + "]"@ + r2,
    ensures
        a == b,
        r1 == r2,
    decreases a.len(),
{
    reveal_strlit("]");
    reveal_strlit(",");
    reveal_strlit("{\"agent_id\":");
    let x = joined(a) + "]"@ + r1;
    let y = joined(b) + "]"@ + r2;
    if a.len() == 0 || b.len() == 0 {
        if a.len() > 0 {
            lemma_joined_from_the_front(a);
            assert(x[0] == a.first().json()[0]);
            assert(y[0] == ']');
            assert(false);
        }
        if b.len() > 0 {
            lemma_joined_from_the_front(b);
            assert(y[0] == b.first().json()[0]);
            assert(x[0] == ']');
            assert(false);
        }
        assert(a =~= b);
        lemma_same_start(joined(a) + "]"@, r1, r2);
    } else {
        lemma_joined_from_the_front(a);
        lemma_joined_from_the_front(b);
        let u = after_first(a) + "]"@ + r1;
        let v = after_first(b) + "]"@ + r2;
        lemma_regroup(a.first().json(), after_first(a), "]"@);
        lemma_regroup(a.first().json(), after_first(a) + "]"@, r1);
        lemma_regroup(b.first().json(), after_first(b), "]"@);
        lemma_regroup(b.first().json(), after_first(b) + "]"@, r2);
        assert(a.first().valid());
        assert(b.first().valid());
        lemma_transaction_tells(a.first(), b.first(), u, v);
        if a.len() == 1 || b.len() == 1 {
            if a.len() > 1 {
                assert(u[0] == ',');
                assert(v[0] == ']');
                assert(false);
            }
            if b.len() > 1 {
                assert(v[0] == ',');
                assert(u[0] == ']');
                assert(false);
            }
            lemma_same_start(after_first(a) + "]"@, r1, r2);
        } else {
            let a_rest = a.drop_first();
            let b_rest = b.drop_first();
            let s = joined(a_rest) + "]"@ + r1;
            let t = joined(b_rest) + "]"@ + r2;
            lemma_regroup(","@, joined(a_rest), "]"@);
            lemma_regroup(","@, joined(a_rest) + "]"@, r1);
            lemma_regroup(","@, joined(b_rest), "]"@);
            lemma_regroup(","@, joined(b_rest) + "]"@, r2);
            lemma_same_start(","@, s, t);
            assert forall|i: int| 0 <= i < a_rest.len() implies (#[trigger] a_rest[i]).valid() by {
                assert(a_rest[i] == a[i + 1]);
            }
            assert forall|i: int| 0 <= i < b_rest.len() implies (#[trigger] b_rest[i]).valid() by {
                assert(b_rest[i] == b[i + 1]);
            }
            lemma_joined_tells(a_rest, b_rest, r1, r2);
        }
        assert(a =~= seq![a.first()] + a.drop_first());
        assert(b =~= seq![b.first()] + b.drop_first());
    }
}

/// The JSON array of valid transactions tells the transactions and their order: two
/// sequences with the same array are the same sequence.
pub proof fn lemma_transactions_json_tells(a: Seq<TransactionView>, b: Seq<TransactionView>)
    requires
        all_valid(a),
        all_valid(b),
        transactions_json(a) == transactions_json(b),
    ensures
        a == b,
{
    let none = Seq::<char>::empty();
    let x = joined(a) + "]"@ + none;
    let y = joined(b) + "]"@ + none;
    assert(transactions_json(a) =~= "["@ + x);
    assert(transactions_json(b) =~= "["@ + y);
    lemma_same_start("["@, x, y);
    lemma_joined_tells(a, b, none, none);
}

/// Bytes in hexadecimal tell the bytes.
pub proof fn lemma_hex_tells(a: Seq<u8>, b: Seq<u8>)
    requires
        hex(a) == hex(b),
    ensures
        a == b,
{
    assert(hex(a).len() == 2 * a.len());
    assert(hex(b).len() == 2 * b.len());
    assert forall|i: int| 0 <= i < a.len() implies a[i] == b[i] by {
        assert((2 * i) / 2 == i && (2 * i) % 2 == 0);
        assert((2 * i + 1) / 2 == i && (2 * i + 1) % 2 == 1);
        assert(hex(a)[2 * i] == hex_digit(a[i] as int / 16));
        assert(hex(b)[2 * i] == hex_digit(b[i] as int / 16));
        assert(hex(a)[2 * i + 1] == hex_digit(a[i] as int % 16));
        assert(hex(b)[2 * i + 1] == hex_digit(b[i] as int % 16));
        lemma_hex_digit_tells(a[i] as int / 16, b[i] as int / 16);
        lemma_hex_digit_tells(a[i] as int % 16, b[i] as int % 16);
    }
    assert(a =~= b);
}

/// Whether SHA-256 gives two different messages the same hash.
pub open spec fn collide(first: Seq<u8>, second: Seq<u8>) -> bool {
    first != second && sha256(first) == sha256(second)
}

/// Two texts with the same digest are the same text, or their bytes are two messages to
/// which SHA-256 gives the same hash.
pub proof fn lemma_digest_tells(first: Seq<char>, second: Seq<char>)
    requires
        digest_of(first) == digest_of(second),
    ensures
        first == second || collide(encode_utf8(first), encode_utf8(second)),
{
    lemma_hex_tells(sha256(encode_utf8(first)), sha256(encode_utf8(second)));
    if encode_utf8(first) == encode_utf8(second) {
        encode_utf8_decode_utf8(first);
        encode_utf8_decode_utf8(second);
    }
}

/// Other transactions, or the same in another order, have another digest, unless SHA-256
/// gives the bytes of the two JSON arrays the same hash.
pub proof fn lemma_other_transactions_have_another_digest(
    a: Seq<TransactionView>,
    b: Seq<TransactionView>,
)
    requires
        all_valid(a),
        all_valid(b),
        a != b,
        !collide(encode_utf8(transactions_json(a)), encode_utf8(transactions_json(b))),
    ensures
        transactions_digest(a) != transactions_digest(b),
{
    if transactions_digest(a) == transactions_digest(b) {
        lemma_digest_tells(transactions_json(a), transactions_json(b));
        lemma_transactions_json_tells(a, b);
    }
}

} // verus!
