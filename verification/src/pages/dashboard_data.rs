//! The boards that the sidebar lists, by category.

use vstd::prelude::*;

verus! {

/// A board as the sidebar links it.
pub struct Board {
    pub url: &'static str,
    pub label: &'static str,
}

/// The sidebar's boards, by category.
pub struct Boards {
    pub hobbies: Vec<Board>,
    pub interests: Vec<Board>,
    pub lifestyle: Vec<Board>,
    pub misc: Vec<Board>,
}

/// What the templates receive for the sidebar.
pub struct Context {
    pub boards: Boards,
}

/// The URL and label of each board of a category, in order.
pub open spec fn links(boards: Seq<Board>) -> Seq<(Seq<char>, Seq<char>)> {
    boards.map_values(|b: Board| (b.url@, b.label@))
}

/// The hobby boards.
pub open spec fn hobby_links() -> Seq<(Seq<char>, Seq<char>)> {
    seq![
        ("/a"@, "আনিমে এবং মাঙ্গা (Anime & Manga)"@),
        ("/khaddo"@, "খাদ্য ও রান্না (Food & Cooking)"@),
        ("/kheladhula"@, "খেলাধুলা (Sports)"@),
        ("/sangeet"@, "সঙ্গীত (Music)"@),
        ("/tv"@, "ফিল্ম ও টেলিভিশন (Film & Television)"@),
        ("/vg"@, "ভিডিও গেমস (Video Games)"@),
    ]
}

/// The boards of interests.
pub open spec fn interest_links() -> Seq<(Seq<char>, Seq<char>)> {
    seq![
        ("/desh"@, "বাংলাদেশ (Bangladesh)"@),
        ("/sahitto"@, "সাহিত্য (Literature)"@),
        ("/manobota"@, "মানবতা ও ইতিহাস (History & Humanity)"@),
        ("/biggan"@, "বিজ্ঞান ও গণিত (Science & Math)"@),
    ]
}

/// The lifestyle boards.
pub open spec fn lifestyle_links() -> Seq<(Seq<char>, Seq<char>)> {
    seq![
        ("/ghor"@, "ঘরের সাজসজ্জা (Home Décor)"@),
        ("/shajgoj"@, "সাজগোজ (Fashion)"@),
        ("/sastho"@, "স্বাস্থ্য ও শরীরচর্চা (Health & Fitness)"@),
        ("/manosik"@, "মানসিক স্বাস্থ্য (Mental Health)"@),
    ]
}

/// The other boards.
pub open spec fn misc_links() -> Seq<(Seq<char>, Seq<char>)> {
    seq![
        ("/ghoshona"@, "ঘোষণা (Announcements)"@),
        ("/site"@, "সাইট আলোচনা (Site Talk)"@),
        ("/b"@, "বিষয়বহির্ভূত (Random)"@),
    ]
}

/// The sidebar's boards.
pub fn dashboard_context() -> (r: Context)
    ensures
        links(r.boards.hobbies@) == hobby_links(),
        links(r.boards.interests@) == interest_links(),
        links(r.boards.lifestyle@) == lifestyle_links(),
        links(r.boards.misc@) == misc_links(),
{
    let hobbies = vec![
        Board { url: "/a", label: "আনিমে এবং মাঙ্গা (Anime & Manga)" },
        Board { url: "/khaddo", label: "খাদ্য ও রান্না (Food & Cooking)" },
        Board { url: "/kheladhula", label: "খেলাধুলা (Sports)" },
        Board { url: "/sangeet", label: "সঙ্গীত (Music)" },
        Board { url: "/tv", label: "ফিল্ম ও টেলিভিশন (Film & Television)" },
        Board { url: "/vg", label: "ভিডিও গেমস (Video Games)" },
    ];
    let interests = vec![
        Board { url: "/desh", label: "বাংলাদেশ (Bangladesh)" },
        Board { url: "/sahitto", label: "সাহিত্য (Literature)" },
        Board { url: "/manobota", label: "মানবতা ও ইতিহাস (History & Humanity)" },
        Board { url: "/biggan", label: "বিজ্ঞান ও গণিত (Science & Math)" },
    ];
    let lifestyle = vec![
        Board { url: "/ghor", label: "ঘরের সাজসজ্জা (Home Décor)" },
        Board { url: "/shajgoj", label: "সাজগোজ (Fashion)" },
        Board { url: "/sastho", label: "স্বাস্থ্য ও শরীরচর্চা (Health & Fitness)" },
        Board { url: "/manosik", label: "মানসিক স্বাস্থ্য (Mental Health)" },
    ];
    let misc = vec![
        Board { url: "/ghoshona", label: "ঘোষণা (Announcements)" },
        Board { url: "/site", label: "সাইট আলোচনা (Site Talk)" },
        Board { url: "/b", label: "বিষয়বহির্ভূত (Random)" },
    ];
    let r = Context { boards: Boards { hobbies, interests, lifestyle, misc } };
    assert(links(r.boards.hobbies@) =~= hobby_links());
    assert(links(r.boards.interests@) =~= interest_links());
    assert(links(r.boards.lifestyle@) =~= lifestyle_links());
    assert(links(r.boards.misc@) =~= misc_links());
    r
}

} // verus!
