//! Tests for the largest-element functions, the mixed-up dots, the
//! summarising trait and the pair.

use mylib::generics::{largest, largest_char, largest_i32, Dot, Point};
use mylib::longest::{first_sentence, longest, naive_longest};
use mylib::summary::{notify_line, returns_summarizable, NewsArticle, Pair, Summary, Tweet};

#[test]
fn largest_of_numbers() {
    let number_list = vec![34, 50, 25, 100, 65];
    assert_eq!(largest_i32(&number_list), 100);
    assert_eq!(*largest(&number_list), 100);
}

#[test]
fn largest_of_chars() {
    let char_list = vec!['y', 'm', 'z', 'a', 'q'];
    assert_eq!(largest_char(&char_list), 'z');
    assert_eq!(*largest(&char_list), 'z');
}

#[test]
fn largest_by_value() {
    let number_list = vec![34, 50, 25, 222, 65];
    assert_eq!(mylib::summary::largest(&number_list), 222);
    assert_eq!(number_list.len(), 5);
}

#[test]
fn points_hold_their_coordinates() {
    let integer_point = Point { x: 5, y: 10 };
    assert_eq!(integer_point.x, 5);
    assert_eq!(integer_point.y, 10);
    let float_point = Point { x: 1.0, y: 4.0 };
    assert_eq!(float_point.x, 1.0);
}

#[test]
fn mixup_crosses_the_coordinates() {
    let d1 = Dot { x: 5, y: 10.4 };
    let d2 = Dot { x: "Hello", y: 'c' };
    let d3 = d1.mixup(d2);
    assert_eq!(d3.x, 5);
    assert_eq!(d3.y, 'c');
}

#[test]
fn tweets_summarize_themselves() {
    let tweet = Tweet {
        username: String::from("horse_ebooks"),
        content: String::from("a horse is a horse of course of course"),
        reply: false,
        retweet: false,
    };
    assert_eq!(
        tweet.summarize(),
        "horse_ebooks: a horse is a horse of course of course"
    );
    assert_eq!(tweet.more(), "(Tweet more...chirp chirp!)");
}

#[test]
fn articles_summarize_themselves() {
    let article = NewsArticle {
        headline: String::from("Man Bites Dog"),
        location: String::from("Albequerque"),
        author: String::from("Fudd, E."),
        content: String::from("Arf Arf"),
    };
    assert_eq!(article.summarize(), "Man Bites Dog, by Fudd, E. (Albequerque)");
    assert_eq!(article.more(), "(Read more...)");
}

#[test]
fn notifications_lead_with_breaking_news() {
    let tweet = Tweet {
        username: String::from("horse_ebooks"),
        content: String::from("a horse is a horse of course of course"),
        reply: false,
        retweet: false,
    };
    assert_eq!(
        notify_line(&tweet),
        "Breaking news! horse_ebooks: a horse is a horse of course of course"
    );
}

#[test]
fn the_sample_tweet_is_spam() {
    let t = returns_summarizable();
    assert_eq!(t.username, "spammy_mc_spammer");
    assert_eq!(t.content, "tweet tweet tweet tweet tweeeeeeeet");
    assert!(!t.reply);
    assert!(!t.retweet);
}

#[test]
fn pairs_compare_their_members() {
    let nums = Pair::new(5, 11);
    assert!(!nums.first_at_least_second());
    assert_eq!(*nums.x(), 5);
    assert_eq!(*nums.y(), 11);
    let chars = Pair::new('z', 'a');
    assert!(chars.first_at_least_second());
}

#[test]
fn the_longer_string_wins() {
    assert_eq!(naive_longest("abcd", "xyz"), "abcd");
    assert_eq!(naive_longest("long string is long", "xyz"), "long string is long");
    assert_eq!(longest("the rain in spain", "lmno"), "the rain in spain");
    assert_eq!(longest("tie", "tee"), "tee");
}

#[test]
fn the_first_sentence_ends_at_the_stop() {
    let novel = String::from("Call me Ishmael. Some years ago...");
    assert_eq!(first_sentence(&novel), "Call me Ishmael");
    assert_eq!(first_sentence("no stop here"), "no stop here");
    assert_eq!(first_sentence(""), "");
}
