use ownership::articles::returns_summarizable;
use ownership::articles::NewsArticle;
use ownership::articles::Summary;
use ownership::articles::SummaryWithDefaultImplementation;
use ownership::articles::Tweet;
use ownership::basics::add_one;
use ownership::basics::do_twice;
use ownership::basics::five;
use ownership::basics::plus_one;
use ownership::basics::returns_closure;
use ownership::basics::workout_plan;
use ownership::basics::Workout;
use ownership::coins::value_in_cents;
use ownership::coins::Coin;
use ownership::geometry::area;
use ownership::geometry::area1;
use ownership::geometry::Pair;
use ownership::geometry::Point;
use ownership::geometry::Point2;
use ownership::geometry::Rectangle;
use ownership::inventory::Inventory;
use ownership::inventory::ShirtColor;
use ownership::maybe::Maybe;
use ownership::users::build_user;
use ownership::users::build_user_alt;

#[test]
fn numeric_helpers() {
    assert_eq!(five(), 5);
    assert_eq!(plus_one(5), 6);
    assert_eq!(add_one(5), 6);
}

#[test]
fn do_twice_doubles() {
    let answer = do_twice(add_one, 5);
    assert_eq!(answer, 12);
}

#[test]
fn returned_closure_adds_one() {
    let f = returns_closure();
    assert_eq!(f(1), 2);
}

#[test]
fn workout_plan_cases() {
    assert_eq!(workout_plan(10, 7), Workout::PushupsAndSitups(10));
    assert_eq!(workout_plan(30, 3), Workout::Break);
    assert_eq!(workout_plan(30, 7), Workout::Run(30));
}

#[test]
fn coin_values() {
    assert_eq!(value_in_cents(Coin::Penny), 1);
    assert_eq!(value_in_cents(Coin::Nickel), 5);
    assert_eq!(value_in_cents(Coin::Dime), 10);
    assert_eq!(value_in_cents(Coin::Quarter), 25);
}

#[test]
fn plus_one_on_options() {
    assert_eq!(ownership::coins::plus_one(Some(5)), Some(6));
    assert_eq!(ownership::coins::plus_one(None), None);
}

#[test]
fn maybe_accessors() {
    let just: Maybe<i32> = Maybe::Just(4);
    assert_eq!(just.unwrap(), 4);
    let just: Maybe<i32> = Maybe::Just(4);
    assert_eq!(just.unwrap_or_else(five), 4);
    let nothing: Maybe<i32> = Maybe::Nothing;
    assert_eq!(nothing.unwrap_or_else(five), 5);
}

#[test]
fn rectangle_geometry() {
    let rect = Rectangle {
        width: 30,
        height: 50,
    };
    assert_eq!(rect.area(), 1500);
    assert!(rect.width());
    assert_eq!(area(30, 50), 1500);
    assert_eq!(area1((30, 50)), 1500);
    let square = Rectangle::square(3);
    assert_eq!(square.area(), 9);
}

#[test]
fn points_and_pairs() {
    let p = Point { x: 5, y: 10 };
    assert_eq!(*p.x(), 5);
    let p1 = Point2 { x: 5, y: 10.4 };
    let p2 = Point2 { x: "Hello", y: 'c' };
    let p3 = p1.mixup(p2);
    assert_eq!(p3.x, 5);
    assert_eq!(p3.y, 'c');
    let pair = Pair::new(1, 2);
    assert_eq!((pair.x, pair.y), (1, 2));
}

#[test]
fn giveaway_prefers_the_user() {
    let store = Inventory {
        shirts: vec![ShirtColor::Blue, ShirtColor::Red, ShirtColor::Blue],
    };
    assert_eq!(store.giveaway(Some(ShirtColor::Red)), ShirtColor::Red);
    assert_eq!(store.giveaway(None), ShirtColor::Blue);
    let red_store = Inventory {
        shirts: vec![ShirtColor::Red, ShirtColor::Red, ShirtColor::Blue],
    };
    assert_eq!(red_store.giveaway(None), ShirtColor::Red);
    let empty_store = Inventory { shirts: vec![] };
    assert_eq!(empty_store.giveaway(None), ShirtColor::Blue);
}

#[test]
fn article_summaries() {
    let article = NewsArticle {
        headline: String::from("Penguins win the Stanley Cup Championship!"),
        location: String::from("Pittsburgh, PA, USA"),
        author: String::from("Iceburgh"),
        content: String::from("The Pittsburgh Penguins once again are the best hockey team in the NHL."),
    };
    assert_eq!(
        Summary::summarize(&article),
        "Penguins win the Stanley Cup Championship!, by Iceburgh (Pittsburgh, PA, USA)"
    );
    assert_eq!(
        SummaryWithDefaultImplementation::summarize(&article),
        "(Read more from Iceburgh...)"
    );
}

#[test]
fn tweet_summaries() {
    let tweet = returns_summarizable();
    assert_eq!(tweet.username, "horse_ebooks");
    assert!(!tweet.reply);
    assert!(!tweet.retweet);
    assert_eq!(
        Summary::summarize(&tweet),
        "horse_ebooks: of course, as you probably already know, people"
    );
    let tweet = Tweet {
        username: String::from("horse_ebooks"),
        content: String::from("of course, as you probably already know, people"),
        reply: false,
        retweet: false,
    };
    assert_eq!(
        SummaryWithDefaultImplementation::summarize(&tweet),
        "(Read more from @horse_ebooks...)"
    );
}

#[test]
fn users_are_built_active() {
    let user = build_user(
        String::from("someone@example.com"),
        String::from("someusername123"),
    );
    assert!(user.active);
    assert_eq!(user.sign_in_count, 1);
    let user = build_user_alt(
        String::from("someone@example.com"),
        String::from("someusername123"),
    );
    assert_eq!(user.email, "someone@example.com");
    assert_eq!(user.username, "someusername123");
}
