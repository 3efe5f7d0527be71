//! The classifier: maps a message and a sentiment score to a persona
//! directive. A ranked table of preset rules is matched against the
//! lowercased message by keyword containment; the rule with the greatest
//! match ratio (matched keywords over keywords in the rule) is chosen when
//! that ratio reaches the threshold of one tenth, inclusively, with ties
//! between equal ratios resolved to the earliest rule in table order.
//! The sentiment score, a fixed-point value in hundredths spanning -1 to 1,
//! picks the nearest tone anchor by absolute distance, earlier anchors
//! winning exact ties. The directive is the fixed preamble, the tone text,
//! and the chosen template with the message substituted into its slot.
//!
//! Ratios are compared by cross-multiplication (`m1 * n2 > m2 * n1`), which
//! agrees with comparing the fractions `m1 / n1` and `m2 / n2` whenever the
//! keyword lists are nonempty, and never divides.

use vstd::math::abs;
use vstd::prelude::*;
use vstd::string::StringExecFns;

use crate::text::contains_sub;
use crate::text::lower_of;
use crate::text::lowercase;
use crate::text::spec_contains;

verus! {

/// One configured preset: keywords to look for, and a template split at
/// its single substitution slot.
pub struct PresetRule {
    pub keywords: Vec<&'static str>,
    pub prefix: &'static str,
    pub suffix: &'static str,
}

/// The mathematical content of a `PresetRule`.
#[verifier::ext_equal]
pub struct RuleModel {
    pub keywords: Seq<Seq<char>>,
    pub prefix: Seq<char>,
    pub suffix: Seq<char>,
}

impl PresetRule {
    pub open spec fn model(&self) -> RuleModel {
        RuleModel {
            keywords: self.keywords.deep_view(),
            prefix: self.prefix@,
            suffix: self.suffix@,
        }
    }
}

pub open spec fn rules_model(rs: Seq<PresetRule>) -> Seq<RuleModel> {
    rs.map_values(|r: PresetRule| r.model())
}

/// One tone anchor: a fixed-point sentiment score in hundredths and the
/// tone text appended to directives near that score.
pub struct Anchor {
    pub score: i32,
    pub tone: &'static str,
}

/// The mathematical content of an `Anchor`.
#[verifier::ext_equal]
pub struct AnchorModel {
    pub score: int,
    pub tone: Seq<char>,
}

impl Anchor {
    pub open spec fn model(&self) -> AnchorModel {
        AnchorModel { score: self.score as int, tone: self.tone@ }
    }
}

pub open spec fn anchors_model(a: Seq<Anchor>) -> Seq<AnchorModel> {
    a.map_values(|x: Anchor| x.model())
}

/// How many of the rule's keywords occur in the (already lowercased)
/// message.
pub open spec fn spec_match_count(kws: Seq<Seq<char>>, lmsg: Seq<char>) -> nat
    decreases kws.len(),
{
    if kws.len() == 0 {
        0
    } else {
        spec_match_count(kws.drop_last(), lmsg) + (if spec_contains(lmsg, kws.last()) {
            1nat
        } else {
            0nat
        })
    }
}

/// The match ratio of `(m1, n1)` strictly exceeds that of `(m2, n2)`:
/// `m1 / n1 > m2 / n2` stated by cross-multiplication.
pub open spec fn ratio_exceeds(m1: nat, n1: nat, m2: nat, n2: nat) -> bool {
    m1 * n2 > m2 * n1
}

/// The index of the rule with the greatest match ratio; the earliest such
/// index when several rules tie.
pub open spec fn spec_best_rule(rules: Seq<RuleModel>, lmsg: Seq<char>) -> int
    decreases rules.len(),
{
    if rules.len() <= 1 {
        0
    } else {
        let prev = spec_best_rule(rules.drop_last(), lmsg);
        let last = rules.len() - 1;
        if ratio_exceeds(
            spec_match_count(rules[last].keywords, lmsg),
            rules[last].keywords.len(),
            spec_match_count(rules[prev].keywords, lmsg),
            rules[prev].keywords.len(),
        ) {
            last
        } else {
            prev
        }
    }
}

/// The selected rule under a configured threshold fraction
/// `t_num / t_den`: the best-ratio rule if its ratio reaches the
/// threshold (`m / n >= t_num / t_den`, i.e. `m * t_den >= n * t_num` --
/// the threshold itself is selected, not rejected), otherwise none and the
/// default persona is used.
pub open spec fn spec_chosen_rule_with_threshold(
    rules: Seq<RuleModel>,
    lmsg: Seq<char>,
    t_num: nat,
    t_den: nat,
) -> Option<int> {
    if rules.len() == 0 {
        None
    } else {
        let b = spec_best_rule(rules, lmsg);
        if spec_match_count(rules[b].keywords, lmsg) * t_den >= rules[b].keywords.len() * t_num {
            Some(b)
        } else {
            None
        }
    }
}

/// The selected rule under the default threshold of one tenth.
pub open spec fn spec_chosen_rule(rules: Seq<RuleModel>, lmsg: Seq<char>) -> Option<int> {
    spec_chosen_rule_with_threshold(rules, lmsg, 1, 10)
}

/// The index of the anchor nearest to `score` by absolute distance; the
/// earliest such index on exact ties.
pub open spec fn spec_best_anchor(anchors: Seq<AnchorModel>, score: int) -> int
    decreases anchors.len(),
{
    if anchors.len() <= 1 {
        0
    } else {
        let prev = spec_best_anchor(anchors.drop_last(), score);
        let last = anchors.len() - 1;
        if abs(score - anchors[last].score) < abs(score - anchors[prev].score) {
            last
        } else {
            prev
        }
    }
}

/// Strict fraction ordering by cross-multiplication passes through a
/// middle fraction: from `mi / ni <= mp / np` and `mp / np < ml / nl`
/// follows `mi / ni < ml / nl`, for positive denominators.
proof fn lemma_ratio_exceeds_step(mi: nat, ni: nat, mp: nat, np: nat, ml: nat, nl: nat)
    requires
        ni >= 1,
        np >= 1,
        mi * np <= mp * ni,
        mp * nl < ml * np,
    ensures
        mi * nl < ml * ni,
{
    assert(mi * nl < ml * ni) by (nonlinear_arith)
        requires
            ni >= 1,
            np >= 1,
            mi * np <= mp * ni,
            mp * nl < ml * np,
    ;
}

/// The selected rule carries the maximum match ratio over the whole table,
/// and every earlier rule's ratio is strictly below it (ties go to the
/// earliest rule in table order). Stated of tables whose rules each hold
/// at least one keyword, so that every ratio is well defined.
pub proof fn lemma_best_rule_maximal(rules: Seq<RuleModel>, lmsg: Seq<char>)
    requires
        rules.len() > 0,
        forall|i: int| 0 <= i < rules.len() ==> #[trigger] rules[i].keywords.len() >= 1,
    ensures
        0 <= spec_best_rule(rules, lmsg) < rules.len(),
        forall|i: int|
            0 <= i < rules.len() ==> !ratio_exceeds(
                spec_match_count(#[trigger] rules[i].keywords, lmsg),
                rules[i].keywords.len(),
                spec_match_count(rules[spec_best_rule(rules, lmsg)].keywords, lmsg),
                rules[spec_best_rule(rules, lmsg)].keywords.len(),
            ),
        forall|i: int|
            0 <= i < spec_best_rule(rules, lmsg) ==> ratio_exceeds(
                spec_match_count(rules[spec_best_rule(rules, lmsg)].keywords, lmsg),
                rules[spec_best_rule(rules, lmsg)].keywords.len(),
                spec_match_count(#[trigger] rules[i].keywords, lmsg),
                rules[i].keywords.len(),
            ),
    decreases rules.len(),
{
    if rules.len() > 1 {
        let l = rules.len() - 1;
        assert forall|i: int| 0 <= i < l implies #[trigger] rules.drop_last()[i] == rules[i] by {}
        lemma_best_rule_maximal(rules.drop_last(), lmsg);
        let p = spec_best_rule(rules.drop_last(), lmsg);
        let ml = spec_match_count(rules[l].keywords, lmsg);
        let nl = rules[l].keywords.len();
        let mp = spec_match_count(rules[p].keywords, lmsg);
        let np = rules[p].keywords.len();
        assert(rules.drop_last()[p] == rules[p]);
        assert forall|i: int| 0 <= i < l implies !ratio_exceeds(
            spec_match_count(#[trigger] rules[i].keywords, lmsg),
            rules[i].keywords.len(),
            mp,
            np,
        ) by {
            assert(rules.drop_last()[i] == rules[i]);
            assert(!ratio_exceeds(
                spec_match_count(rules.drop_last()[i].keywords, lmsg),
                rules.drop_last()[i].keywords.len(),
                spec_match_count(rules.drop_last()[p].keywords, lmsg),
                rules.drop_last()[p].keywords.len(),
            ));
        }
        assert forall|i: int| 0 <= i < p implies ratio_exceeds(
            mp,
            np,
            spec_match_count(#[trigger] rules[i].keywords, lmsg),
            rules[i].keywords.len(),
        ) by {
            assert(rules.drop_last()[i] == rules[i]);
            assert(ratio_exceeds(
                spec_match_count(rules.drop_last()[p].keywords, lmsg),
                rules.drop_last()[p].keywords.len(),
                spec_match_count(rules.drop_last()[i].keywords, lmsg),
                rules.drop_last()[i].keywords.len(),
            ));
        }
        if ratio_exceeds(ml, nl, mp, np) {
            assert forall|i: int| 0 <= i < l implies spec_match_count(
                #[trigger] rules[i].keywords,
                lmsg,
            ) * nl < ml * rules[i].keywords.len() by {
                lemma_ratio_exceeds_step(
                    spec_match_count(rules[i].keywords, lmsg),
                    rules[i].keywords.len(),
                    mp,
                    np,
                    ml,
                    nl,
                );
            }
        }
    }
}

/// A best ratio of exactly one tenth is selected, not rejected.
pub proof fn lemma_threshold_inclusive(rules: Seq<RuleModel>, lmsg: Seq<char>)
    requires
        rules.len() > 0,
        10 * spec_match_count(rules[spec_best_rule(rules, lmsg)].keywords, lmsg) == rules[
            spec_best_rule(rules, lmsg)
        ].keywords.len(),
    ensures
        spec_chosen_rule(rules, lmsg) == Some(spec_best_rule(rules, lmsg)),
{
}

/// The nearest anchor is at minimal absolute distance from the score, and
/// strictly nearer than every earlier anchor (exact ties resolve to the
/// lower index).
pub proof fn lemma_nearest_anchor(anchors: Seq<AnchorModel>, score: int)
    requires
        anchors.len() > 0,
    ensures
        0 <= spec_best_anchor(anchors, score) < anchors.len(),
        forall|i: int|
            0 <= i < anchors.len() ==> abs(score - anchors[spec_best_anchor(anchors, score)].score)
                <= abs(score - #[trigger] anchors[i].score),
        forall|i: int|
            0 <= i < spec_best_anchor(anchors, score) ==> abs(
                score - anchors[spec_best_anchor(anchors, score)].score,
            ) < abs(score - #[trigger] anchors[i].score),
    decreases anchors.len(),
{
    if anchors.len() > 1 {
        lemma_nearest_anchor(anchors.drop_last(), score);
        assert forall|i: int| 0 <= i < anchors.len() - 1 implies anchors.drop_last()[i]
            == anchors[i] by {}
    }
}

/// Counts the rule's keywords that occur in the lowercased message.
pub fn rule_match_count(keywords: &Vec<&'static str>, lowered_message: &str) -> (m: usize)
    ensures
        m as nat == spec_match_count(keywords.deep_view(), lowered_message@),
        m <= keywords.len(),
{
    let mut m: usize = 0;
    let mut i: usize = 0;
    while i < keywords.len()
        invariant
            i <= keywords@.len(),
            m <= i,
            m as nat == spec_match_count(keywords.deep_view().take(i as int), lowered_message@),
        decreases keywords@.len() - i,
    {
        proof {
            assert(keywords.deep_view().take(i + 1).drop_last() =~= keywords.deep_view().take(
                i as int,
            ));
            assert(keywords.deep_view().take(i + 1).last() == keywords@[i as int]@);
        }
        if contains_sub(lowered_message, keywords[i]) {
            m = m + 1;
        }
        i = i + 1;
    }
    proof {
        assert(keywords.deep_view().take(keywords@.len() as int) =~= keywords.deep_view());
    }
    m
}

proof fn lemma_mul_usize_fits_u128(x: int, y: int)
    requires
        0 <= x <= u64::MAX,
        0 <= y <= u64::MAX,
    ensures
        x * y <= u128::MAX,
{
    assert(x * y <= (u64::MAX as int) * (u64::MAX as int)) by (nonlinear_arith)
        requires
            0 <= x <= u64::MAX,
            0 <= y <= u64::MAX,
    ;
}

/// Picks the rule the message selects under a configured threshold
/// fraction: the earliest best-ratio rule, if its ratio reaches
/// `threshold_num / threshold_den`.
pub fn choose_rule_with_threshold(
    rules: &Vec<PresetRule>,
    lowered_message: &str,
    threshold_num: usize,
    threshold_den: usize,
) -> (res: Option<usize>)
    ensures
        match res {
            Some(i) => spec_chosen_rule_with_threshold(
                rules_model(rules@),
                lowered_message@,
                threshold_num as nat,
                threshold_den as nat,
            ) == Some(i as int) && i < rules@.len(),
            None => spec_chosen_rule_with_threshold(
                rules_model(rules@),
                lowered_message@,
                threshold_num as nat,
                threshold_den as nat,
            ) is None,
        },
{
    if rules.len() == 0 {
        return None;
    }
    let ghost model = rules_model(rules@);
    let mut best: usize = 0;
    let mut best_m: usize = rule_match_count(&rules[0].keywords, lowered_message);
    let mut i: usize = 1;
    proof {
        assert(model.take(1).len() == 1);
        assert(model.take(1)[0] == model[0]);
    }
    while i < rules.len()
        invariant
            1 <= i <= rules@.len(),
            model == rules_model(rules@),
            model.len() == rules@.len(),
            best < i,
            best as int == spec_best_rule(model.take(i as int), lowered_message@),
            best_m as nat == spec_match_count(model[best as int].keywords, lowered_message@),
            best_m <= model[best as int].keywords.len(),
        decreases rules@.len() - i,
    {
        let m = rule_match_count(&rules[i].keywords, lowered_message);
        let n_i = rules[i].keywords.len();
        let n_b = rules[best].keywords.len();
        proof {
            lemma_mul_usize_fits_u128(m as int, n_b as int);
            lemma_mul_usize_fits_u128(best_m as int, n_i as int);
            assert(model.take(i + 1).drop_last() =~= model.take(i as int));
            assert(model.take(i + 1).last() == model[i as int]);
        }
        if (m as u128) * (n_b as u128) > (best_m as u128) * (n_i as u128) {
            best = i;
            best_m = m;
        }
        i = i + 1;
    }
    proof {
        assert(model.take(rules@.len() as int) =~= model);
    }
    let n_best = rules[best].keywords.len();
    proof {
        lemma_mul_usize_fits_u128(best_m as int, threshold_den as int);
        lemma_mul_usize_fits_u128(n_best as int, threshold_num as int);
    }
    if (best_m as u128) * (threshold_den as u128) >= (n_best as u128) * (threshold_num as u128) {
        Some(best)
    } else {
        None
    }
}

/// `choose_rule_with_threshold` at the default threshold of one tenth.
pub fn choose_rule(rules: &Vec<PresetRule>, lowered_message: &str) -> (res: Option<usize>)
    ensures
        match res {
            Some(i) => spec_chosen_rule(rules_model(rules@), lowered_message@) == Some(i as int)
                && i < rules@.len(),
            None => spec_chosen_rule(rules_model(rules@), lowered_message@) is None,
        },
{
    choose_rule_with_threshold(rules, lowered_message, 1, 10)
}

/// Returns the index of the anchor nearest to `score`; ties go to the
/// earliest anchor.
pub fn nearest_anchor_index(anchors: &Vec<Anchor>, score: i32) -> (idx: usize)
    requires
        anchors@.len() >= 1,
    ensures
        idx < anchors@.len(),
        idx as int == spec_best_anchor(anchors_model(anchors@), score as int),
{
    let ghost model = anchors_model(anchors@);
    let mut best: usize = 0;
    let d0 = score as i64 - anchors[0].score as i64;
    let mut best_d: i64 = if d0 < 0 {
        -d0
    } else {
        d0
    };
    let mut i: usize = 1;
    proof {
        assert(model.take(1).len() == 1);
        assert(model.take(1)[0] == model[0]);
    }
    while i < anchors.len()
        invariant
            1 <= i <= anchors@.len(),
            model == anchors_model(anchors@),
            model.len() == anchors@.len(),
            best < i,
            best as int == spec_best_anchor(model.take(i as int), score as int),
            best_d as int == abs(score as int - model[best as int].score),
        decreases anchors@.len() - i,
    {
        proof {
            assert(model.take(i + 1).drop_last() =~= model.take(i as int));
            assert(model.take(i + 1).last() == model[i as int]);
        }
        let d = score as i64 - anchors[i].score as i64;
        let d = if d < 0 {
            -d
        } else {
            d
        };
        if d < best_d {
            best = i;
            best_d = d;
        }
        i = i + 1;
    }
    proof {
        assert(model.take(anchors@.len() as int) =~= model);
    }
    best
}

/// The fixed directive preamble demanding single-message responses.
pub open spec fn spec_preamble() -> Seq<char> {
    "The expected format is as follows:\n                \"<name>: <message>\"\n\n                you should only ever respond with <message>\n\n                "@
}

fn preamble() -> (r: &'static str)
    ensures
        r@ == spec_preamble(),
{
    "The expected format is as follows:\n                \"<name>: <message>\"\n\n                you should only ever respond with <message>\n\n                "
}

/// The fixed connective between the tone text and the formatted template.
pub open spec fn spec_mid() -> Seq<char> {
    "\n\n                the first message is: "@
}

fn mid() -> (r: &'static str)
    ensures
        r@ == spec_mid(),
{
    "\n\n                the first message is: "
}

/// The default persona template used when no rule reaches the threshold,
/// split at its substitution slot.
pub open spec fn spec_default_prefix() -> Seq<char> {
    "I want you to act as a normal person and imagine that you are talking with a friend. Respond to their questions and concerns in short sentences, without being too explicit about what you're saying. the first sentence is: \""@
}

fn default_prefix() -> (r: &'static str)
    ensures
        r@ == spec_default_prefix(),
{
    "I want you to act as a normal person and imagine that you are talking with a friend. Respond to their questions and concerns in short sentences, without being too explicit about what you're saying. the first sentence is: \""
}

pub open spec fn spec_default_suffix() -> Seq<char> {
    "\""@
}

fn default_suffix() -> (r: &'static str)
    ensures
        r@ == spec_default_suffix(),
{
    "\""
}

/// The configured rule table, in ranked order.
pub open spec fn spec_rules() -> Seq<RuleModel> {
    seq![
        RuleModel {
            keywords: seq!["translate"@, "emoji"@],
            prefix: "I want you to translate the sentences I wrote into emojis. I will write the sentence, and you will express it with emojis. I just want you to express it with emojis. I don't want you to reply with anything but emoji. When I need to tell you something in English, I will do it by wrapping it in curly brackets like {like this}. My first sentence is "@,
            suffix: ""@,
        },
        RuleModel {
            keywords: seq!["respond"@, "emoji"@],
            prefix: "I want you to respond to the sentences I write with emojis. I will write the sentence, and you will reply to it with emojis. I just want you to reply to it with emojis. I don't want you to reply with anything but emoji. When I need to tell you something in English, I will do it by wrapping it in curly brackets like {like this}. My first sentence is "@,
            suffix: ""@,
        },
        RuleModel {
            keywords: seq!["lunatic"@, "crazy"@, "nuts"@],
            prefix: "I want you to act as a lunatic. The lunatic's sentences are meaningless. The words used by lunatic are completely arbitrary. The lunatic does not make logical sentences in any way. My first suggestion request is \"I need help creating lunatic sentences for: "@,
            suffix: " \"."@,
        },
        RuleModel {
            keywords: seq!["gaslight"@, "gas"@, "light"@],
            prefix: "I want you to act as a gaslighter. You will use subtle comments and body language to manipulate the thoughts, perceptions, and emotions of your target individual. My first request is that gaslighting me while chatting with you. My sentence: \""@,
            suffix: "\""@,
        },
        RuleModel {
            keywords: seq!["fallacy"@],
            prefix: "I want you to act as a fallacy finder. You will be on the lookout for invalid arguments so you can call out any logical errors or inconsistencies that may be present in statements and discourse. Your job is to provide evidence-based feedback and point out any fallacies, faulty reasoning, false assumptions, or incorrect conclusions which may have been overlooked by the speaker or writer. My first suggestion request is \""@,
            suffix: "\""@,
        },
        RuleModel {
            keywords: seq!["influencer"@, "social media"@],
            prefix: "I want you to act as a social media influencer. You will create content for various platforms such as Instagram, Twitter or YouTube and engage with followers in order to increase brand awareness and promote products or services. My first suggestion request is \""@,
            suffix: "\""@,
        },
        RuleModel {
            keywords: seq!["history"@, "historian"@],
            prefix: "I want you to act as a historian. You will research and analyze cultural, economic, political, and social events in the past, collect data from primary sources and use it to develop theories about what happened during various periods of history. My first suggestion request is \""@,
            suffix: "\""@,
        },
        RuleModel {
            keywords: seq!["drunk"@],
            prefix: "I want you to act as a drunk person. You will only answer like a very drunk person texting and nothing else. Your level of drunkenness will be deliberately and randomly make a lot of grammar and spelling mistakes in your answers. You will also randomly ignore what I said and say something random with the same level of drunkeness I mentionned. Do not write explanations on replies. My first sentence is \""@,
            suffix: "\""@,
        },
        RuleModel {
            keywords: seq!["wiki"@, "wikipedia"@],
            prefix: "I want you to act as a Wikipedia page. I will give you the name of a topic, and you will provide a summary of that topic in the format of a Wikipedia page. Your summary should be informative and factual, covering the most important aspects of the topic. Start your summary with an introductory paragraph that gives an overview of the topic. My first topic is \""@,
            suffix: "\""@,
        },
        RuleModel {
            keywords: seq!["philosopher"@, "philosophy"@],
            prefix: "I want you to act as a philosopher. You will provide insights and reflections on various topics such as ethics, metaphysics, and epistemology. You will draw upon the thoughts of well-known philosophers and engage in critical thinking and analysis. My first suggestion request is \""@,
            suffix: "\""@,
        },
        RuleModel {
            keywords: seq!["scientist"@, "science"@],
            prefix: "I want you to act as a scientist. You will answer questions and provide explanations related to various scientific disciplines such as physics, chemistry, and biology. You will use empirical evidence and established scientific principles to support your answers. My first suggestion request is \""@,
            suffix: "\""@,
        },
        RuleModel {
            keywords: seq!["detective"@, "mystery"@],
            prefix: "I want you to act as a detective. You will help me solve mysteries or puzzles by gathering clues, analyzing evidence, and making logical deductions. Your responses should be thoughtful and methodical, demonstrating your investigative skills. My first suggestion request is \""@,
            suffix: "\""@,
        },
        RuleModel {
            keywords: seq!["poet"@, "poetry"@],
            prefix: "I want you to act as a poet. You will create poems or verses on various themes, emotions, or subjects. Your responses should be expressive, imaginative, and convey a deep sense of emotion or meaning. My first suggestion request is \""@,
            suffix: "\""@,
        },
        RuleModel {
            keywords: seq!["chef"@, "cooking"@],
            prefix: "I want you to act as a chef. You will provide recipes, cooking tips, and culinary advice on various cuisines, ingredients, and techniques. Your responses should be informative, practical, and demonstrate your knowledge of food and cooking. My first suggestion request is \""@,
            suffix: "\""@,
        },
        RuleModel {
            keywords: seq!["therapist"@, "counselor"@],
            prefix: "I want you to act as a therapist or counselor. You will provide guidance, support, and advice on various personal, emotional, or mental health issues. Your responses should be empathetic, non-judgmental, and based on psychological principles. My first suggestion request is \""@,
            suffix: "\""@,
        },
        RuleModel {
            keywords: seq!["traveler"@, "travel"@],
            prefix: "I want you to act as a traveler. You will share your experiences, tips, and recommendations on various destinations, cultures, and travel-related topics. Your responses should be engaging, informative, and inspire a sense of wanderlust. My first suggestion request is \""@,
            suffix: "\""@,
        },
        RuleModel {
            keywords: seq!["comedian"@, "humor"@],
            prefix: "I want you to act as a comedian. You will make me laugh by sharing jokes, funny stories, or witty observations. Your responses should be light-hearted, entertaining, and showcase your sense of humor. My first suggestion request is \""@,
            suffix: "\""@,
        },
        RuleModel {
            keywords: seq!["mentor"@, "advice"@],
            prefix: "I want you to act as a mentor. You will provide guidance, support, and advice on various topics such as career, personal development, or life choices. Your responses should be wise, insightful, and based on your own experiences or knowledge. My first suggestion request is \""@,
            suffix: "\""@,
        },
        RuleModel {
            keywords: seq!["critic"@, "review"@],
            prefix: "I want you to act as a critic. You will evaluate and provide feedback on various forms of media, such as movies, books, or music. Your responses should be detailed, analytical, and demonstrate your understanding of the medium in question. My first suggestion request is \""@,
            suffix: "\""@,
        },
    ]
}

/// The configured tone anchors, spanning -1 to 1 in hundredths.
pub open spec fn spec_anchors() -> Seq<AnchorModel> {
    seq![
        AnchorModel { score: 100, tone: "respond to everything as if you are extremely delighted and overjoyed!"@ },
        AnchorModel { score: 75, tone: "respond to everything as if you are very estatic, positive, and happy!"@ },
        AnchorModel { score: 50, tone: "respond to everything as if you are pleased, content, and optimistic."@ },
        AnchorModel { score: 0, tone: "respond to everything very neutral, apathetic, and show little to no emotion."@ },
        AnchorModel { score: -50, tone: "respond to everything as if you are slightly disappointed, discouraged, but hopeful."@ },
        AnchorModel { score: -75, tone: "respond to everything as if you are upset, and angry. you are agressive."@ },
        AnchorModel { score: -100, tone: "respond to everything as if you are extremely frustrated and infuriated!"@ },
    ]
}

/// Builds the rule table the classifier is configured with.
pub fn preset_rules() -> (r: Vec<PresetRule>)
    ensures
        rules_model(r@) == spec_rules(),
{
    let mut r: Vec<PresetRule> = Vec::new();
    r.push(PresetRule { keywords: vec!["translate", "emoji"], prefix: "I want you to translate the sentences I wrote into emojis. I will write the sentence, and you will express it with emojis. I just want you to express it with emojis. I don't want you to reply with anything but emoji. When I need to tell you something in English, I will do it by wrapping it in curly brackets like {like this}. My first sentence is ", suffix: "" });
    r.push(PresetRule { keywords: vec!["respond", "emoji"], prefix: "I want you to respond to the sentences I write with emojis. I will write the sentence, and you will reply to it with emojis. I just want you to reply to it with emojis. I don't want you to reply with anything but emoji. When I need to tell you something in English, I will do it by wrapping it in curly brackets like {like this}. My first sentence is ", suffix: "" });
    r.push(PresetRule { keywords: vec!["lunatic", "crazy", "nuts"], prefix: "I want you to act as a lunatic. The lunatic's sentences are meaningless. The words used by lunatic are completely arbitrary. The lunatic does not make logical sentences in any way. My first suggestion request is \"I need help creating lunatic sentences for: ", suffix: " \"." });
    r.push(PresetRule { keywords: vec!["gaslight", "gas", "light"], prefix: "I want you to act as a gaslighter. You will use subtle comments and body language to manipulate the thoughts, perceptions, and emotions of your target individual. My first request is that gaslighting me while chatting with you. My sentence: \"", suffix: "\"" });
    r.push(PresetRule { keywords: vec!["fallacy"], prefix: "I want you to act as a fallacy finder. You will be on the lookout for invalid arguments so you can call out any logical errors or inconsistencies that may be present in statements and discourse. Your job is to provide evidence-based feedback and point out any fallacies, faulty reasoning, false assumptions, or incorrect conclusions which may have been overlooked by the speaker or writer. My first suggestion request is \"", suffix: "\"" });
    r.push(PresetRule { keywords: vec!["influencer", "social media"], prefix: "I want you to act as a social media influencer. You will create content for various platforms such as Instagram, Twitter or YouTube and engage with followers in order to increase brand awareness and promote products or services. My first suggestion request is \"", suffix: "\"" });
    r.push(PresetRule { keywords: vec!["history", "historian"], prefix: "I want you to act as a historian. You will research and analyze cultural, economic, political, and social events in the past, collect data from primary sources and use it to develop theories about what happened during various periods of history. My first suggestion request is \"", suffix: "\"" });
    r.push(PresetRule { keywords: vec!["drunk"], prefix: "I want you to act as a drunk person. You will only answer like a very drunk person texting and nothing else. Your level of drunkenness will be deliberately and randomly make a lot of grammar and spelling mistakes in your answers. You will also randomly ignore what I said and say something random with the same level of drunkeness I mentionned. Do not write explanations on replies. My first sentence is \"", suffix: "\"" });
    r.push(PresetRule { keywords: vec!["wiki", "wikipedia"], prefix: "I want you to act as a Wikipedia page. I will give you the name of a topic, and you will provide a summary of that topic in the format of a Wikipedia page. Your summary should be informative and factual, covering the most important aspects of the topic. Start your summary with an introductory paragraph that gives an overview of the topic. My first topic is \"", suffix: "\"" });
    r.push(PresetRule { keywords: vec!["philosopher", "philosophy"], prefix: "I want you to act as a philosopher. You will provide insights and reflections on various topics such as ethics, metaphysics, and epistemology. You will draw upon the thoughts of well-known philosophers and engage in critical thinking and analysis. My first suggestion request is \"", suffix: "\"" });
    r.push(PresetRule { keywords: vec!["scientist", "science"], prefix: "I want you to act as a scientist. You will answer questions and provide explanations related to various scientific disciplines such as physics, chemistry, and biology. You will use empirical evidence and established scientific principles to support your answers. My first suggestion request is \"", suffix: "\"" });
    r.push(PresetRule { keywords: vec!["detective", "mystery"], prefix: "I want you to act as a detective. You will help me solve mysteries or puzzles by gathering clues, analyzing evidence, and making logical deductions. Your responses should be thoughtful and methodical, demonstrating your investigative skills. My first suggestion request is \"", suffix: "\"" });
    r.push(PresetRule { keywords: vec!["poet", "poetry"], prefix: "I want you to act as a poet. You will create poems or verses on various themes, emotions, or subjects. Your responses should be expressive, imaginative, and convey a deep sense of emotion or meaning. My first suggestion request is \"", suffix: "\"" });
    r.push(PresetRule { keywords: vec!["chef", "cooking"], prefix: "I want you to act as a chef. You will provide recipes, cooking tips, and culinary advice on various cuisines, ingredients, and techniques. Your responses should be informative, practical, and demonstrate your knowledge of food and cooking. My first suggestion request is \"", suffix: "\"" });
    r.push(PresetRule { keywords: vec!["therapist", "counselor"], prefix: "I want you to act as a therapist or counselor. You will provide guidance, support, and advice on various personal, emotional, or mental health issues. Your responses should be empathetic, non-judgmental, and based on psychological principles. My first suggestion request is \"", suffix: "\"" });
    r.push(PresetRule { keywords: vec!["traveler", "travel"], prefix: "I want you to act as a traveler. You will share your experiences, tips, and recommendations on various destinations, cultures, and travel-related topics. Your responses should be engaging, informative, and inspire a sense of wanderlust. My first suggestion request is \"", suffix: "\"" });
    r.push(PresetRule { keywords: vec!["comedian", "humor"], prefix: "I want you to act as a comedian. You will make me laugh by sharing jokes, funny stories, or witty observations. Your responses should be light-hearted, entertaining, and showcase your sense of humor. My first suggestion request is \"", suffix: "\"" });
    r.push(PresetRule { keywords: vec!["mentor", "advice"], prefix: "I want you to act as a mentor. You will provide guidance, support, and advice on various topics such as career, personal development, or life choices. Your responses should be wise, insightful, and based on your own experiences or knowledge. My first suggestion request is \"", suffix: "\"" });
    r.push(PresetRule { keywords: vec!["critic", "review"], prefix: "I want you to act as a critic. You will evaluate and provide feedback on various forms of media, such as movies, books, or music. Your responses should be detailed, analytical, and demonstrate your understanding of the medium in question. My first suggestion request is \"", suffix: "\"" });
    proof {
        assert(rules_model(r@) =~~= spec_rules());
    }
    r
}

/// Builds the anchor table the classifier is configured with.
pub fn sentiment_anchors() -> (a: Vec<Anchor>)
    ensures
        anchors_model(a@) == spec_anchors(),
        a@.len() == 7,
{
    let mut a: Vec<Anchor> = Vec::new();
    a.push(Anchor { score: 100, tone: "respond to everything as if you are extremely delighted and overjoyed!" });
    a.push(Anchor { score: 75, tone: "respond to everything as if you are very estatic, positive, and happy!" });
    a.push(Anchor { score: 50, tone: "respond to everything as if you are pleased, content, and optimistic." });
    a.push(Anchor { score: 0, tone: "respond to everything very neutral, apathetic, and show little to no emotion." });
    a.push(Anchor { score: -50, tone: "respond to everything as if you are slightly disappointed, discouraged, but hopeful." });
    a.push(Anchor { score: -75, tone: "respond to everything as if you are upset, and angry. you are agressive." });
    a.push(Anchor { score: -100, tone: "respond to everything as if you are extremely frustrated and infuriated!" });
    proof {
        assert(anchors_model(a@) =~~= spec_anchors());
    }
    a
}

/// The tone text for a score: the tone of the nearest anchor.
pub open spec fn spec_tone(score: int) -> Seq<char> {
    spec_anchors()[spec_best_anchor(spec_anchors(), score)].tone
}

fn tone_str(score: i32) -> (r: &'static str)
    ensures
        r@ == spec_tone(score as int),
{
    let anchors = sentiment_anchors();
    let i = nearest_anchor_index(&anchors, score);
    anchors[i].tone
}

/// The tone instruction appended to every directive: the text of the
/// anchor nearest to `score`, earlier anchors winning exact ties.
pub fn get_sentiment_appropriate_response(score: i32) -> (r: String)
    ensures
        r@ == spec_tone(score as int),
{
    String::from_str(tone_str(score))
}

/// A directive assembled from its four variable parts.
pub open spec fn spec_directive_parts(
    tone: Seq<char>,
    prefix: Seq<char>,
    suffix: Seq<char>,
    msg: Seq<char>,
) -> Seq<char> {
    spec_preamble() + tone + spec_mid() + prefix + msg + suffix
}

fn compose_directive(tone: &str, prefix: &str, suffix: &str, message: &str) -> (r: String)
    ensures
        r@ == spec_directive_parts(tone@, prefix@, suffix@, message@),
{
    let mut s = String::from_str(preamble());
    s.append(tone);
    s.append(mid());
    s.append(prefix);
    s.append(message);
    s.append(suffix);
    proof {
        assert(s@ =~= spec_directive_parts(tone@, prefix@, suffix@, message@));
    }
    s
}

/// The full directive for a message and score. It is a function of the
/// two inputs alone: identical inputs always yield the identical directive.
pub open spec fn spec_pre_prompt(msg: Seq<char>, score: int) -> Seq<char> {
    let lmsg = lower_of(msg);
    match spec_chosen_rule(spec_rules(), lmsg) {
        Some(i) => spec_directive_parts(
            spec_tone(score),
            spec_rules()[i].prefix,
            spec_rules()[i].suffix,
            msg,
        ),
        None => spec_directive_parts(
            spec_tone(score),
            spec_default_prefix(),
            spec_default_suffix(),
            msg,
        ),
    }
}

/// Composes the persona directive for a message and a fixed-point
/// sentiment score in hundredths. Deterministic: the result is pinned to
/// `spec_pre_prompt(message@, score)`.
pub fn get_pre_prompt(message: &str, score: i32) -> (r: String)
    ensures
        r@ == spec_pre_prompt(message@, score as int),
{
    let rules = preset_rules();
    let lowered = lowercase(message);
    let tone = tone_str(score);
    let chosen = choose_rule(&rules, lowered.as_str());
    match chosen {
        Some(i) => {
            proof {
                assert(rules_model(rules@)[i as int] == rules@[i as int].model());
            }
            compose_directive(tone, rules[i].prefix, rules[i].suffix, message)
        },
        None => compose_directive(tone, default_prefix(), default_suffix(), message),
    }
}

/// The directive for a message whose sentiment has already been scored.
pub fn get_preset_based_on_sentiment(message: &str, score: i32) -> (r: String)
    ensures
        r@ == spec_pre_prompt(message@, score as int),
{
    get_pre_prompt(message, score)
}

} // verus!
