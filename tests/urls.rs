use presence_bridge::urls::{apple_music_search_url, spotify_search_url};

#[test]
fn url_builder_encodes_queries() {
    let apple = apple_music_search_url("Daft Punk", "Get Lucky");
    let spotify = spotify_search_url("AC/DC", "Back In Black");

    assert!(apple.contains("Daft%20Punk%20Get%20Lucky"));
    assert!(spotify.contains("AC%2FDC%20Back%20In%20Black"));
}

#[test]
fn search_urls_are_exact() {
    assert_eq!(
        apple_music_search_url("Daft Punk", "Get Lucky"),
        "https://music.apple.com/us/search?term=Daft%20Punk%20Get%20Lucky"
    );
    assert_eq!(
        spotify_search_url("Sigur Rós", "Hoppípolla"),
        "https://open.spotify.com/search/Sigur%20R%C3%B3s%20Hopp%C3%ADpolla"
    );
}
