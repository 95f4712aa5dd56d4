use marcia_assistant::models::date::{DateInfo, Weekday};
use marcia_assistant::utils::date_utils::{
    date_info_of, get_current_date_info, get_month_name, get_weekday_name, Today,
};

const WEEKDAY_NAMES: [&str; 7] = [
    "Segunda-feira",
    "Terça-feira",
    "Quarta-feira",
    "Quinta-feira",
    "Sexta-feira",
    "Sábado",
    "Domingo",
];

#[test]
fn month_names_in_order() {
    let expected = [
        "Janeiro",
        "Fevereiro",
        "Março",
        "Abril",
        "Maio",
        "Junho",
        "Julho",
        "Agosto",
        "Setembro",
        "Outubro",
        "Novembro",
        "Dezembro",
    ];
    for (i, name) in expected.iter().enumerate() {
        assert_eq!(get_month_name(i as u32 + 1), *name);
    }
}

#[test]
fn a_number_that_is_no_month_is_unknown() {
    assert_eq!(get_month_name(0), "Mês desconhecido");
    assert_eq!(get_month_name(13), "Mês desconhecido");
    assert_eq!(get_month_name(u32::MAX), "Mês desconhecido");
}

#[test]
fn weekday_names_in_order() {
    let days = [
        Weekday::Monday,
        Weekday::Tuesday,
        Weekday::Wednesday,
        Weekday::Thursday,
        Weekday::Friday,
        Weekday::Saturday,
        Weekday::Sunday,
    ];
    for (day, name) in days.iter().zip(WEEKDAY_NAMES.iter()) {
        assert_eq!(get_weekday_name(*day), *name);
    }
}

#[test]
fn a_day_of_the_clock_is_worded() {
    let today = Today { day: 5, month: 3, year: 2024, weekday: Weekday::Tuesday };
    assert_eq!(
        date_info_of(today),
        DateInfo { day: 5, month: 3, year: 2024, weekday: "Terça-feira".to_string() }
    );
}

#[test]
fn the_current_date_is_well_formed() {
    let info = get_current_date_info();
    assert!(1 <= info.day && info.day <= 31);
    assert!(1 <= info.month && info.month <= 12);
    assert!(WEEKDAY_NAMES.contains(&info.weekday.as_str()));
    assert!(info.year >= 2024);
}
