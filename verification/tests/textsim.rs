//! Similarity and summaries.

use agora::textsim::{
    rank_top, similarity_terms, split_sentences, summarize, term_freq, to_plain, tokenize, RankKey,
};

struct Scored {
    index: usize,
    score: f64,
}

fn similarity(a: &str, b: &str) -> f64 {
    let terms = similarity_terms(a, b);
    if terms.dot == 0 {
        return 0.0;
    }
    (terms.dot as f64 / ((terms.norm_a as f64).sqrt() * (terms.norm_b as f64).sqrt())).min(1.0)
}

fn rank(query: &str, docs: &[String], k: usize, min_score: f64) -> Vec<Scored> {
    if term_freq(query).is_empty() {
        return Vec::new();
    }
    let keys = docs
        .iter()
        .enumerate()
        .map(|(index, doc)| (index, similarity(query, doc)))
        .filter(|(_, score)| *score >= min_score)
        .map(|(index, score)| RankKey { index, key: score.to_bits() })
        .collect();
    rank_top(keys, k)
        .into_iter()
        .map(|key| Scored { index: key.index, score: f64::from_bits(key.key) })
        .collect()
}

#[test]
fn identical_text_is_maximally_similar() {
    let s = similarity("database connection pool tuning", "database connection pool tuning");
    assert!(s > 0.99, "identical token sets score ~1.0, got {s}");
}

#[test]
fn related_scores_above_unrelated() {
    let q = "how to tune the postgres connection pool size";
    let related = "postgres connection pool sizing best practices";
    let unrelated = "favourite pizza topping recipes for the weekend";
    assert!(similarity(q, related) > similarity(q, unrelated));
    assert!(similarity(q, related) > 0.1);
}

#[test]
fn stopwords_do_not_create_false_matches() {
    // Two sentences sharing only stopwords must not look similar.
    let s = similarity("the cat is on the mat", "we are in the house and it is warm");
    assert!(s < 0.05, "stopword-only overlap scored {s}");
}

#[test]
fn rank_returns_top_k_most_similar() {
    let docs = vec![
        "postgres connection pool tuning and sizing".to_string(),
        "weekend pizza recipes".to_string(),
        "connection pool exhaustion in postgres under load".to_string(),
        "favourite movies of the year".to_string(),
    ];
    let ranked = rank("postgres connection pool size", &docs, 3, 0.05);
    assert!(!ranked.is_empty());
    // The two postgres docs (idx 0 and 2) must rank above the off-topic ones.
    assert!(ranked.iter().any(|s| s.index == 0));
    assert!(ranked.iter().any(|s| s.index == 2));
    assert!(!ranked.iter().any(|s| s.index == 1), "pizza must not surface");
    // Scores are non-increasing.
    for w in ranked.windows(2) {
        assert!(w[0].score >= w[1].score);
    }
}

#[test]
fn rank_respects_min_score_and_empty_query() {
    let docs = vec!["totally unrelated content here".to_string()];
    assert!(rank("xyz qrs", &docs, 3, 0.5).is_empty(), "below threshold -> none");
    assert!(rank("the and of", &docs, 3, 0.0).is_empty(), "all-stopword query -> none");
}

#[test]
fn summarize_picks_salient_sentences_in_order() {
    let text = "The deployment failed because the database migration timed out. \
        Pizza is nice. \
        The database migration timed out due to a missing index on the orders table. \
        We added the index and the migration now completes quickly. \
        Thanks.";
    let summary = summarize(text, 2);
    assert_eq!(summary.len(), 2);
    // The two migration/database sentences are the most salient.
    assert!(summary.iter().all(|s| s.to_lowercase().contains("migration")));
    // Returned in original reading order.
    assert!(summary[0].contains("failed"));
}

#[test]
fn summarize_strips_markdown_and_html() {
    let md = "# Heading\n\nThis is **bold** and a [link](http://x.y) to docs. \
        <script>alert(1)</script> end.";
    let summary = summarize(md, 3);
    let joined = summary.join(" ");
    assert!(!joined.contains('#'));
    assert!(!joined.contains('*'));
    assert!(!joined.contains("<script>"));
    assert!(joined.contains("link"), "link text survives");
}

#[test]
fn summarize_short_text_returns_all_sentences() {
    let summary = summarize("Only one sentence here.", 3);
    assert_eq!(summary.len(), 1);
    assert_eq!(summary[0], "Only one sentence here");
}

#[test]
fn summary_of_nothing_or_without_room_is_empty() {
    assert!(summarize("One. Two.", 0).is_empty());
    assert!(summarize("", 3).is_empty());
}

#[test]
fn tokens_are_lowered_words_without_stopwords() {
    assert_eq!(tokenize("The POOL is Ready"), ["pool", "ready"]);
    let terms = similarity_terms("pool pool ready", "pool ready ready");
    assert_eq!((terms.dot, terms.norm_a, terms.norm_b), (4, 5, 5));
}

#[test]
fn equal_scores_rank_by_index() {
    let keys = vec![
        RankKey { index: 2, key: 7 },
        RankKey { index: 0, key: 7 },
        RankKey { index: 1, key: 9 },
    ];
    let order: Vec<usize> = rank_top(keys, 3).iter().map(|key| key.index).collect();
    assert_eq!(order, [1, 0, 2]);
}

#[test]
fn plain_text_keeps_link_labels_and_splits_into_sentences() {
    assert_eq!(to_plain("[docs](http://x.y) **now**").trim(), "docs now");
    assert_eq!(split_sentences("First one. Second one! Third?").len(), 3);
}

#[test]
fn a_sentence_scores_the_sum_of_its_terms() {
    let text = "apple banana cherry. apple banana cherry date elder fig.";
    assert_eq!(summarize(text, 1), ["apple banana cherry date elder fig"]);
    // Two terms that occur three times count half, so three that occur twice stand before them.
    let text = "date elder. apple banana cherry. date elder. apple banana cherry. date elder.";
    assert_eq!(summarize(text, 1), ["apple banana cherry"]);
}

#[test]
fn a_longer_summary_holds_the_shorter() {
    let text = "The pool failed over night. Pizza is nice. The pool and the index failed again. \
        We rebuilt the index of the pool. Thanks.";
    let all = summarize(text, usize::MAX);
    assert_eq!(all.len(), 5);
    for k in 0..6 {
        let shorter = summarize(text, k);
        assert_eq!(shorter.len(), k.min(5));
        for longer in [summarize(text, k + 1), all.clone()] {
            let mut rest = longer.iter();
            assert!(shorter.iter().all(|s| rest.any(|l| l == s)));
        }
    }
    assert_eq!(summarize(text, 5), all);
}
