use hot100::chart::Song;
use hot100::codec::encode_records;

fn song(rank: usize, artist: &str, title: &str) -> Song {
    Song { rank, artist: artist.to_string(), song: title.to_string() }
}

#[test]
fn empty_chart_encodes_as_empty_array() {
    assert_eq!(encode_records(&Vec::new()), "[]");
}

#[test]
fn one_record_encodes_exactly() {
    let songs = vec![song(1, "A", "S")];
    assert_eq!(encode_records(&songs), "[{\"rank\":1,\"artist\":\"A\",\"song\":\"S\"}]");
}

#[test]
fn multi_digit_ranks_encode_in_decimal() {
    let songs = vec![song(99, "A", "S"), song(100, "B", "T")];
    assert_eq!(
        encode_records(&songs),
        "[{\"rank\":99,\"artist\":\"A\",\"song\":\"S\"},\
         {\"rank\":100,\"artist\":\"B\",\"song\":\"T\"}]"
    );
}

#[test]
fn quotes_backslashes_and_controls_are_escaped() {
    let songs = vec![song(1, "he said \"hi\"", "a\\b\nc")];
    assert_eq!(
        encode_records(&songs),
        "[{\"rank\":1,\"artist\":\"he said \\\"hi\\\"\",\"song\":\"a\\\\b\\u000ac\"}]"
    );
}

#[test]
fn payload_is_valid_json_with_the_documented_fields() {
    let songs = vec![song(1, "Artist & Co", "Song \"Live\"")];
    let payload = encode_records(&songs);
    let value: serde_json::Value = serde_json::from_str(&payload).unwrap();
    let row = &value.as_array().unwrap()[0];
    assert_eq!(row.get("rank").unwrap().as_u64().unwrap(), 1);
    assert_eq!(row.get("artist").unwrap().as_str().unwrap(), "Artist & Co");
    assert_eq!(row.get("song").unwrap().as_str().unwrap(), "Song \"Live\"");
}

#[test]
fn three_records_round_trip_through_the_payload() {
    let songs = vec![
        song(1, "Artist A", "Song A"),
        song(2, "Artist B", "Song B"),
        song(3, "Artist C", "Song C"),
    ];
    let payload = encode_records(&songs);
    let value: serde_json::Value = serde_json::from_str(&payload).unwrap();
    let mut parsed = Vec::new();
    for row in value.as_array().unwrap() {
        parsed.push(Song {
            rank: row.get("rank").unwrap().as_u64().unwrap() as usize,
            artist: row.get("artist").unwrap().as_str().unwrap().to_string(),
            song: row.get("song").unwrap().as_str().unwrap().to_string(),
        });
    }
    assert_eq!(parsed, songs);
}

#[test]
fn non_ascii_text_passes_through_unescaped() {
    let songs = vec![song(1, "アーティスト", "曲名")];
    assert_eq!(
        encode_records(&songs),
        "[{\"rank\":1,\"artist\":\"アーティスト\",\"song\":\"曲名\"}]"
    );
}
