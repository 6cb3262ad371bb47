use primer::closures::{generate_workout, Cacher, Workout};
use primer::decimal::{signed_text, unsigned_text};
use primer::generics::{largest, Point, PointEx};
use primer::ownership::{gives_ownership, takes_and_gives_back};
use primer::references::{calculate_references_length, no_dangle};
use primer::slices::{first_word, first_word_ex, first_word_length};
use primer::structs::{area, build_user, Rectangle};
use primer::traits::{
    notify, notify_ex, returns_summarizable, trait_bound_notify, NewsArticle, Pair, Summary, Tweet,
};

#[test]
fn sum_and_difference() {
    assert_eq!(primer::functions::add(4, 8), 12);
    assert_eq!(primer::functions::minus(4, 8), -4);
    assert_eq!(primer::functions::add(i32::MAX, i32::MIN), -1);
    assert_eq!(primer::functions::minus(i32::MIN, -1), i32::MIN + 1);
}

#[test]
fn a_text_changes_hands_unchanged() {
    assert_eq!(gives_ownership(), "hello");
    assert_eq!(takes_and_gives_back(String::from("hello")), "hello");
    assert_eq!(takes_and_gives_back(String::new()), "");
    assert_eq!(no_dangle(), "hello");
}

#[test]
fn the_length_of_a_text_is_counted_in_bytes() {
    assert_eq!(calculate_references_length(&String::from("hello")), 5);
    assert_eq!(calculate_references_length(&String::from("h\u{e9}llo")), 6);
    assert_eq!(calculate_references_length(&String::new()), 0);
}

#[test]
fn the_first_word_ends_at_the_first_space() {
    let s = String::from("hello world");
    assert_eq!(first_word_length(&s), 5);
    assert_eq!(first_word(&s), "hello");
    assert_eq!(first_word_ex(&s[..]), "hello");
    assert_eq!(first_word_ex("hello world"), "hello");
}

#[test]
fn a_text_without_space_is_one_word() {
    let s = String::from("hello");
    assert_eq!(first_word_length(&s), 5);
    assert_eq!(first_word(&s), "hello");
    assert_eq!(first_word_length(&String::new()), 0);
    assert_eq!(first_word_ex(""), "");
}

#[test]
fn a_text_that_begins_with_a_space_has_an_empty_first_word() {
    let s = String::from(" hello");
    assert_eq!(first_word_length(&s), 0);
    assert_eq!(first_word(&s), "");
    assert_eq!(first_word_ex("  "), "");
}

#[test]
fn the_first_word_may_hold_characters_of_several_bytes() {
    let s = String::from("gr\u{fc}\u{df}e \u{4e2d}\u{6587}");
    assert_eq!(first_word_length(&s), 7);
    assert_eq!(first_word(&s), "gr\u{fc}\u{df}e");
    assert_eq!(first_word_ex("\u{4e2d}\u{6587}\ttab is no space"), "\u{4e2d}\u{6587}\ttab");
}

#[test]
fn a_new_user_is_active_and_signed_in_once() {
    let user = build_user(String::from("someone@example.com"), String::from("someusername123"));
    assert_eq!(user.email, "someone@example.com");
    assert_eq!(user.username, "someusername123");
    assert!(user.active);
    assert_eq!(user.sign_in_count, 1);
}

#[test]
fn the_area_of_a_rectangle_is_width_times_height() {
    let rect1 = Rectangle { width: 30, height: 50 };
    assert_eq!(area(&rect1), 1500);
    assert_eq!(rect1.area(), 1500);
    assert_eq!(Rectangle::square(30).area(), 900);
    assert_eq!(Rectangle { width: 65535, height: 65537 }.area(), u32::MAX);
    assert_eq!(Rectangle { width: 0, height: u32::MAX }.area(), 0);
}

#[test]
fn a_square_holds_a_smaller_square() {
    let rect1 = Rectangle::square(30);
    let rect2 = Rectangle::square(50);
    assert!(!rect1.can_hold(&rect2));
    assert!(rect2.can_hold(&rect1));
    assert!(!rect1.can_hold(&rect1));
}

#[test]
fn the_largest_of_numbers_and_of_characters() {
    assert_eq!(largest(&[34, 50, 25, 100, 65]), 100);
    assert_eq!(largest(&['y', 'm', 'a', 'q']), 'y');
    assert_eq!(largest(&[7]), 7);
    assert_eq!(largest(&[-3, -1, -2]), -1);
    assert_eq!(largest(&[2u8, 2, 1]), 2);
}

#[test]
fn the_largest_keeps_what_came_first_where_nothing_is_greater() {
    let largest_float = largest(&[1.0, f64::NAN, 0.5]);
    assert_eq!(largest_float, 1.0);
    assert!(largest(&[f64::NAN, 1.0]).is_nan());
}

#[test]
fn points_of_any_coordinates() {
    let p = Point { x: 5, y: 10 };
    assert_eq!(*p.x(), 5);
    let first = PointEx { x: 5, y: 10.4 };
    let second = PointEx { x: "Hello", y: 'c' };
    let mixed = first.mixup(second);
    assert_eq!(mixed.x, 5);
    assert_eq!(mixed.y, 'c');
}

fn tweet() -> Tweet {
    Tweet {
        username: String::from("horse_ebooks"),
        content: String::from("of course, as you probably already know, people"),
        reply: false,
        retweet: false,
    }
}

fn article() -> NewsArticle {
    NewsArticle {
        headline: String::from("Penguins win the Stanley Cup Championship!"),
        location: String::from("Pittsburgh, PA, USA"),
        author: String::from("Iceburgh"),
        content: String::from("The Pittsburgh Penguins once again are the best hockey team."),
    }
}

#[test]
fn a_tweet_is_summed_up_by_who_said_what() {
    assert_eq!(
        tweet().summarize(),
        "horse_ebooks: of course, as you probably already know, people"
    );
    assert_eq!(tweet().summarize_source(), "群里转的...");
}

#[test]
fn an_article_is_summed_up_by_headline_author_and_place() {
    assert_eq!(
        article().summarize(),
        "Penguins win the Stanley Cup Championship!, by Iceburgh (Pittsburgh, PA, USA)"
    );
    assert_eq!(article().summarize_source(), "不是转载的！！！");
}

struct Note(String);

impl Summary for Note {
    fn summarize(&self) -> String {
        self.0.clone()
    }
}

impl std::fmt::Display for Note {
    fn fmt(&self, f: &mut std::fmt::Formatter) -> std::fmt::Result {
        f.write_str(&self.0)
    }
}

#[test]
fn a_news_flash_opens_with_breaking_news() {
    assert_eq!(
        notify(tweet()),
        "Breaking news! horse_ebooks: of course, as you probably already know, people"
    );
    assert_eq!(
        trait_bound_notify(article()),
        "Breaking news! Penguins win the Stanley Cup Championship!, by Iceburgh (Pittsburgh, PA, USA)"
    );
    assert_eq!(notify_ex(Note(String::from("milk"))), "Breaking news! milk");
    assert_eq!(Note(String::new()).summarize_source(), "群里转的...");
}

#[test]
fn something_summarizable_comes_back() {
    let item = returns_summarizable();
    assert_eq!(
        item.summarize(),
        "chry: 5 月 29 日消息，近日特斯拉宣布在北美将主动召回 2018 年 12 月至..."
    );
    assert_eq!(item.summarize_source(), "群里转的...");
}

#[test]
fn a_pair_tells_its_largest_member() {
    assert!(Pair::new(3, 2).cmp_display());
    assert!(Pair::new(2, 2).cmp_display());
    assert!(!Pair::new(2, 3).cmp_display());
    assert!(Pair::new("b", "a").cmp_display());
    assert!(!Pair::new(f64::NAN, 1.0).cmp_display());
}

#[test]
fn a_cacher_runs_its_calculation_once() {
    let calls = std::cell::Cell::new(0);
    let mut cacher = Cacher::new(|x| {
        calls.set(calls.get() + 1);
        x * 2
    });
    assert_eq!(cacher.value(4), 8);
    assert_eq!(cacher.value(4), 8);
    assert_eq!(cacher.value(5), 8);
    assert_eq!(calls.get(), 1);
}

#[test]
fn a_workout_goes_by_intensity_and_chance() {
    assert_eq!(generate_workout(10, 7), Workout::Strength { pushups: 10, situps: 10 });
    assert_eq!(generate_workout(24, 3), Workout::Strength { pushups: 24, situps: 24 });
    assert_eq!(generate_workout(0, 3), Workout::Strength { pushups: 0, situps: 0 });
    assert_eq!(generate_workout(25, 3), Workout::Rest);
    assert_eq!(generate_workout(25, 7), Workout::Run { minutes: 25 });
    assert_eq!(generate_workout(u32::MAX, 2), Workout::Run { minutes: u32::MAX });
}

#[test]
fn a_workout_is_put_in_words() {
    assert_eq!(
        generate_workout(10, 7).lines(),
        vec!["Today, do 10 pushups!", "Next, do 10 situps!"]
    );
    assert_eq!(
        generate_workout(30, 3).lines(),
        vec!["Take a break today! Remember to stay hydrated!"]
    );
    assert_eq!(generate_workout(30, 4).lines(), vec!["Today, run for 30 minutes!"]);
}

#[test]
fn numbers_are_written_in_decimal() {
    assert_eq!(unsigned_text(0), "0");
    assert_eq!(unsigned_text(7), "7");
    assert_eq!(unsigned_text(10), "10");
    assert_eq!(unsigned_text(1234567890), "1234567890");
    assert_eq!(unsigned_text(u64::MAX), u64::MAX.to_string());
    assert_eq!(signed_text(0), "0");
    assert_eq!(signed_text(-1), "-1");
    assert_eq!(signed_text(i64::MAX), i64::MAX.to_string());
    assert_eq!(signed_text(i64::MIN), i64::MIN.to_string());
    for n in -1000i64..1000 {
        assert_eq!(signed_text(n * 7919), (n * 7919).to_string());
    }
}
