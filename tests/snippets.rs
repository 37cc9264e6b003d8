use rust_book::adder::add_two;
use rust_book::art::{mix, PrimaryColor, SecondaryColor};
use rust_book::elisions::{first_word, first_word1};
use rust_book::enums::{localhost, IpAddrKind};
use rust_book::fn_closures::returns_closure;
use rust_book::function_lifetimes;
use rust_book::generics::{get_largest, Point};
use rust_book::lifetime_annotation::longest;
use rust_book::restaurant::{
    eat_at_breakfast_restaurant, eat_at_restaurant, eat_at_restaurant_use, hosting, Appetizer, Breakfast,
};
use rust_book::slices;
use rust_book::smart_pointers::MyBox;
use rust_book::strings::{self, graphemes};
use rust_book::structs::Rectangle;
use rust_book::traits::{notification, returns_summarizable, some_function, some_function1, NewsArticle, Summary, Tweet};

#[test]
fn largest_number_and_char() {
    assert_eq!(get_largest(vec![34, 50, 25, 100, 65]), 100);
    assert_eq!(get_largest(vec!['y', 'm', 'a', 'q']), 'y');
    assert_eq!(get_largest(vec![-3]), -3);
    assert_eq!(get_largest(vec![2u8, 9, 9, 1]), 9);
}

#[test]
fn point_first_coordinate() {
    let p = Point { x: 5, y: 10 };
    assert_eq!(*p.x(), 5);
}

#[test]
fn first_word_stops_at_space() {
    assert_eq!(slices::first_word("Hello, world!"), "Hello,");
    assert_eq!(slices::first_word("hello"), "hello");
    assert_eq!(slices::first_word(""), "");
    assert_eq!(slices::first_word(" lead"), "");
    assert_eq!(first_word("héllo wörld"), "héllo");
    assert_eq!(first_word1("a b c"), "a");
}

#[test]
fn longest_by_bytes() {
    assert_eq!(longest("abcd", "xyz"), "abcd");
    assert_eq!(longest("ab", "xyz"), "xyz");
    assert_eq!(longest("ab", "xy"), "xy");
    assert_eq!(function_lifetimes::longest("a", "bb"), "really long string".to_string());
}

#[test]
fn rectangles() {
    let rect = Rectangle { width: 30, height: 50 };
    let rect1 = Rectangle { width: 20, height: 40 };
    let rect2 = Rectangle { width: 40, height: 50 };
    let rect3 = Rectangle::square(25);
    let rect4 = Rectangle::square(55);
    assert!(rect.can_hold(&rect1));
    assert!(!rect.can_hold(&rect2));
    assert!(rect.can_hold(&rect3));
    assert!(!rect.can_hold(&rect4));
    assert_eq!(rect.area(), 1500);
    assert_eq!(rect3.width, 25);
    assert_eq!(rect3.height, 25);
}

#[test]
fn mixing_colors() {
    assert_eq!(mix(PrimaryColor::Red, PrimaryColor::Yellow), SecondaryColor::Orange);
    assert_eq!(mix(PrimaryColor::Blue, PrimaryColor::Yellow), SecondaryColor::Orange);
}

#[test]
fn boxes_hold_values() {
    let y = MyBox::new(5);
    assert_eq!(5, *y);
    let m = MyBox::new(String::from("Rust"));
    assert_eq!(m.as_str(), "Rust");
}

#[test]
fn closure_adds_one() {
    let f = returns_closure();
    assert_eq!(f(1), 2);
    assert_eq!(f(-1), 0);
}

#[test]
fn localhost_is_loopback() {
    assert!(matches!(localhost(), IpAddrKind::V4(127, 0, 0, 1)));
}

#[test]
fn restaurant_orders() {
    eat_at_restaurant();
    eat_at_breakfast_restaurant();
    eat_at_restaurant_use();
    hosting::add_to_waitlist();
    let mut meal = Breakfast::summer("Rye");
    assert_eq!(meal.toast, "Rye");
    assert_eq!(meal.seasonal_fruit(), "peaches");
    meal.toast = String::from("Wheat");
    assert_eq!(meal.toast, "Wheat");
    assert_ne!(Appetizer::Soup, Appetizer::Salad);
}

#[test]
fn summaries() {
    let tweet = Tweet {
        username: String::from("horse_ebooks"),
        content: String::from("of course"),
        reply: false,
        retweet: false,
    };
    assert_eq!(tweet.summarize_author(), "@horse_ebooks");
    assert_eq!(tweet.summarize(), "horse_ebooks: of course");
    let article = NewsArticle {
        headline: String::from("The Sky is Falling!"),
        author: String::from("John Doe"),
        content: String::from("The sky is not actually falling!"),
    };
    assert_eq!(article.summarize_author(), "John Doe");
    assert_eq!(article.summarize(), "(Read more from John Doe...)");
    assert_eq!(notification(&article), "Breaking news! (Read more from John Doe...)");
    assert_eq!(returns_summarizable().summarize(), "@john_doe: Hello, World!");
    assert_eq!(returns_summarizable().summarize_author(), "@@john_doe");
    assert_eq!(some_function(&1, &tweet), 0);
    assert_eq!(some_function1(&"x", &article), 0);
}

#[test]
fn strings_concat_and_graphemes() {
    assert_eq!(strings::concat("Hello, ", "world!"), "Hello, world!");
    assert_eq!(graphemes("नमस्ते"), vec!["न", "म", "स\u{94d}त\u{947}"]);
    assert_eq!(graphemes("a\r\nb"), vec!["a", "\r\n", "b"]);
    assert!(graphemes("").is_empty());
    assert_eq!(add_two(0), 2);
}
