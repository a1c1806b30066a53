use rust_topics::summary::{notify_dynamic, notify_static, process, NewsArticle, Summary, Tweet, Wechat};

fn get_test_data() -> (NewsArticle, Tweet, Wechat) {
    let article = NewsArticle {
        headline: String::from("Penguins win the Stanley Cup Championship!"),
        location: String::from("Pittsburgh, PA, USA"),
        author: String::from("Iceburgh"),
        content: String::from("The Pittsburgh Penguins once again are the best hockey team in the NHL."),
    };

    let tweet = Tweet {
        username: String::from("horse_ebooks"),
        content: String::from("of course, as you probably already know, people"),
        reply: false,
        retweet: false,
    };

    let wechat = Wechat {
        official_account: String::from("RustLang"),
        title: String::from("New release 1.80"),
    };

    (article, tweet, wechat)
}

#[test]
fn test_static_dispatch() {
    let (article, tweet, wechat) = get_test_data();

    assert_eq!(notify_static(&article), "Breaking news! Penguins win the Stanley Cup Championship!, by Iceburgh (Pittsburgh, PA, USA)");
    assert_eq!(notify_static(&tweet), "Breaking news! horse_ebooks: of course, as you probably already know, people");
    assert_eq!(notify_static(&wechat), "Breaking news! Wechat from RustLang: New release 1.80");
}

#[test]
fn test_dynamic_dispatch1() {
    let (article, tweet, wechat) = get_test_data();

    assert_eq!(notify_dynamic(&article), "Breaking news! Penguins win the Stanley Cup Championship!, by Iceburgh (Pittsburgh, PA, USA)");
    assert_eq!(notify_dynamic(&tweet), "Breaking news! horse_ebooks: of course, as you probably already know, people");
    assert_eq!(notify_dynamic(&wechat), "Breaking news! Wechat from RustLang: New release 1.80");
}

#[test]
fn test_dynamic_dispatch2() {
    let (article, tweet, wechat) = get_test_data();

    let items: Vec<Box<dyn Summary>> = vec![
        Box::new(article),
        Box::new(tweet),
        Box::new(wechat),
    ];

    let mut results = Vec::new();
    for item in items {
        results.push(notify_dynamic(&*item));
    }

    assert_eq!(results[0], "Breaking news! Penguins win the Stanley Cup Championship!, by Iceburgh (Pittsburgh, PA, USA)");
    assert_eq!(results[1], "Breaking news! horse_ebooks: of course, as you probably already know, people");
    assert_eq!(results[2], "Breaking news! Wechat from RustLang: New release 1.80");
}

#[test]
fn summaries_follow_their_templates() {
    let (article, tweet, wechat) = get_test_data();
    assert_eq!(article.summarize(), "Penguins win the Stanley Cup Championship!, by Iceburgh (Pittsburgh, PA, USA)");
    assert_eq!(tweet.summarize(), "horse_ebooks: of course, as you probably already know, people");
    assert_eq!(wechat.summarize(), "Wechat from RustLang: New release 1.80");
}

#[test]
fn summaries_of_empty_fields() {
    let article = NewsArticle {
        headline: String::new(),
        location: String::new(),
        author: String::new(),
        content: String::new(),
    };
    let tweet = Tweet { username: String::new(), content: String::new(), reply: true, retweet: true };
    let wechat = Wechat { official_account: String::new(), title: String::new() };
    assert_eq!(article.summarize(), ", by  ()");
    assert_eq!(tweet.summarize(), ": ");
    assert_eq!(wechat.summarize(), "Wechat from : ");
}

#[test]
fn notifiers_agree_with_summary() {
    let (article, tweet, wechat) = get_test_data();
    let items: [&dyn Summary; 3] = [&article, &tweet, &wechat];
    for item in items {
        assert_eq!(notify_dynamic(item), format!("Breaking news! {}", item.summarize()));
    }
    assert_eq!(notify_static(&article), notify_dynamic(&article));
    assert_eq!(notify_static(&tweet), notify_dynamic(&tweet));
    assert_eq!(notify_static(&wechat), notify_dynamic(&wechat));
}

#[test]
fn summarize_twice_gives_same_text() {
    let (article, tweet, wechat) = get_test_data();
    assert_eq!(article.summarize(), article.summarize());
    assert_eq!(tweet.summarize(), tweet.summarize());
    assert_eq!(wechat.summarize(), wechat.summarize());
}

#[test]
fn process_keeps_order_of_mixed_batch() {
    let (article, tweet, wechat) = get_test_data();
    let expected = vec![notify_dynamic(&wechat), notify_dynamic(&article), notify_dynamic(&tweet)];
    let batch: Vec<Box<dyn Summary>> = vec![Box::new(wechat), Box::new(article), Box::new(tweet)];
    assert_eq!(process(batch), expected);
}

#[test]
fn process_of_empty_batch_is_empty() {
    let batch: Vec<Box<dyn Summary>> = Vec::new();
    assert!(process(batch).is_empty());
}

#[test]
fn process_of_single_item() {
    let (_, tweet, _) = get_test_data();
    let batch: Vec<Box<dyn Summary>> = vec![Box::new(tweet)];
    assert_eq!(
        process(batch),
        vec![String::from("Breaking news! horse_ebooks: of course, as you probably already know, people")]
    );
}

#[test]
fn process_of_many_items_keeps_length() {
    let mut batch: Vec<Box<dyn Summary>> = Vec::new();
    for i in 0..5 {
        batch.push(Box::new(Wechat { official_account: format!("acct{}", i), title: String::from("t") }));
        batch.push(Box::new(Tweet {
            username: format!("user{}", i),
            content: String::from("c"),
            reply: false,
            retweet: i % 2 == 0,
        }));
    }
    let out = process(batch);
    assert_eq!(out.len(), 10);
    assert_eq!(out[0], "Breaking news! Wechat from acct0: t");
    assert_eq!(out[9], "Breaking news! user4: c");
}
