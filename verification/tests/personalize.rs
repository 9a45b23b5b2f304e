use keyval_store::personalize::ADJECTIVE_COUNT;
use keyval_store::personalize::ADVERB_COUNT;
use keyval_store::personalize::NOUN_COUNT;
use keyval_store::personalize::adjective;
use keyval_store::personalize::adverb;
use keyval_store::personalize::noun;
use keyval_store::personalize::personalized_value;

#[test]
fn personalized_value_joins_three_listed_words() {
    for _ in 0..20 {
        let value = personalized_value();
        let mut found = false;
        for i in 0..ADVERB_COUNT {
            for j in 0..ADJECTIVE_COUNT {
                for k in 0..NOUN_COUNT {
                    let candidate = format!("{}{}{}", adverb(i), adjective(j), noun(k));
                    if candidate == value {
                        found = true;
                    }
                }
            }
        }
        assert!(found, "unexpected personalized value: {value}");
    }
}

#[test]
fn word_lists_have_the_advertised_sizes() {
    assert_eq!(ADVERB_COUNT, 6);
    assert_eq!(ADJECTIVE_COUNT, 6);
    assert_eq!(NOUN_COUNT, 7);
    assert_eq!(adverb(0), "Very");
    assert_eq!(adjective(5), "TriggerHappy");
    assert_eq!(noun(6), "DoubleDipper");
}
