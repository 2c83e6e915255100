//! The bundled reference table of countries and their time zones.

use vstd::prelude::*;

verus! {

/// One header row (`alpha_2_code`, `alpha_3_code`, `continent`, `capital`,
/// `name`, `timezones`) and one record per country; the last field holds the
/// comma-separated IANA zone identifiers of the country.
pub const TZ_CSV: &'static str = "\
    alpha_2_code,alpha_3_code,continent,capital,name,timezones\n\
    AD,AND,Europe,Andorra la Vella,Andorra,Europe/Andorra\n\
    AE,ARE,Asia,Abu Dhabi,United Arab Emirates,Asia/Dubai\n\
    AF,AFG,Asia,Kabul,Afghanistan,Asia/Kabul\n\
    AL,ALB,Europe,Tirana,Albania,Europe/Tirane\n\
    AM,ARM,Asia,Yerevan,Armenia,Asia/Yerevan\n\
    AR,ARG,South America,Buenos Aires,Argentina,\"America/Argentina/Buenos_Aires,America/Argentina/Cordoba,America/Argentina/Salta,America/Argentina/Jujuy,America/Argentina/Tucuman,America/Argentina/Catamarca,America/Argentina/La_Rioja,America/Argentina/San_Juan,America/Argentina/Mendoza,America/Argentina/San_Luis,America/Argentina/Rio_Gallegos,America/Argentina/Ushuaia\"\n\
    AT,AUT,Europe,Vienna,Austria,Europe/Vienna\n\
    AU,AUS,Oceania,Canberra,Australia,\"Australia/Lord_Howe,Antarctica/Macquarie,Australia/Hobart,Australia/Melbourne,Australia/Sydney,Australia/Broken_Hill,Australia/Brisbane,Australia/Lindeman,Australia/Adelaide,Australia/Darwin,Australia/Perth,Australia/Eucla\"\n\
    BD,BGD,Asia,Dhaka,Bangladesh,Asia/Dhaka\n\
    BE,BEL,Europe,Brussels,Belgium,Europe/Brussels\n\
    BG,BGR,Europe,Sofia,Bulgaria,Europe/Sofia\n\
    BR,BRA,South America,Brasilia,Brazil,\"America/Noronha,America/Belem,America/Fortaleza,America/Recife,America/Araguaina,America/Maceio,America/Bahia,America/Sao_Paulo,America/Campo_Grande,America/Cuiaba,America/Santarem,America/Porto_Velho,America/Boa_Vista,America/Manaus,America/Eirunepe,America/Rio_Branco\"\n\
    CA,CAN,North America,Ottawa,Canada,\"America/St_Johns,America/Halifax,America/Glace_Bay,America/Moncton,America/Goose_Bay,America/Toronto,America/Winnipeg,America/Regina,America/Swift_Current,America/Edmonton,America/Vancouver\"\n\
    CH,CHE,Europe,Bern,Switzerland,Europe/Zurich\n\
    CL,CHL,South America,Santiago,Chile,\"America/Santiago,America/Punta_Arenas,Pacific/Easter\"\n\
    CN,CHN,Asia,Beijing,China,\"Asia/Shanghai,Asia/Urumqi\"\n\
    CO,COL,South America,Bogota,Colombia,America/Bogota\n\
    CZ,CZE,Europe,Prague,Czechia,Europe/Prague\n\
    DE,DEU,Europe,Berlin,Germany,\"Europe/Berlin,Europe/Busingen\"\n\
    DK,DNK,Europe,Copenhagen,Denmark,Europe/Copenhagen\n\
    EG,EGY,Africa,Cairo,Egypt,Africa/Cairo\n\
    ES,ESP,Europe,Madrid,Spain,\"Europe/Madrid,Africa/Ceuta,Atlantic/Canary\"\n\
    FI,FIN,Europe,Helsinki,Finland,Europe/Helsinki\n\
    FR,FRA,Europe,Paris,France,Europe/Paris\n\
    GB,GBR,Europe,London,United Kingdom,Europe/London\n\
    GR,GRC,Europe,Athens,Greece,Europe/Athens\n\
    HK,HKG,Asia,Hong Kong,Hong Kong,Asia/Hong_Kong\n\
    ID,IDN,Asia,Jakarta,Indonesia,\"Asia/Jakarta,Asia/Pontianak,Asia/Makassar,Asia/Jayapura\"\n\
    IE,IRL,Europe,Dublin,Ireland,Europe/Dublin\n\
    IL,ISR,Asia,Jerusalem,Israel,Asia/Jerusalem\n\
    IN,IND,Asia,New Delhi,India,\"Asia/Calcutta,Asia/Kolkata\"\n\
    IR,IRN,Asia,Tehran,Iran,Asia/Tehran\n\
    IT,ITA,Europe,Rome,Italy,Europe/Rome\n\
    JP,JPN,Asia,Tokyo,Japan,Asia/Tokyo\n\
    KE,KEN,Africa,Nairobi,Kenya,Africa/Nairobi\n\
    KR,KOR,Asia,Seoul,South Korea,Asia/Seoul\n\
    LK,LKA,Asia,Colombo,Sri Lanka,Asia/Colombo\n\
    MC,MCO,Europe,Monaco,Monaco,Europe/Monaco\n\
    MX,MEX,North America,Mexico City,Mexico,\"America/Mexico_City,America/Cancun,America/Merida,America/Monterrey,America/Matamoros,America/Chihuahua,America/Ojinaga,America/Mazatlan,America/Hermosillo,America/Tijuana\"\n\
    MY,MYS,Asia,Kuala Lumpur,Malaysia,\"Asia/Kuala_Lumpur,Asia/Kuching\"\n\
    NG,NGA,Africa,Abuja,Nigeria,Africa/Lagos\n\
    NL,NLD,Europe,Amsterdam,Netherlands,Europe/Amsterdam\n\
    NO,NOR,Europe,Oslo,Norway,Europe/Oslo\n\
    NP,NPL,Asia,Kathmandu,Nepal,Asia/Kathmandu\n\
    NZ,NZL,Oceania,Wellington,New Zealand,\"Pacific/Auckland,Pacific/Chatham\"\n\
    PE,PER,South America,Lima,Peru,America/Lima\n\
    PH,PHL,Asia,Manila,Philippines,Asia/Manila\n\
    PK,PAK,Asia,Islamabad,Pakistan,Asia/Karachi\n\
    PL,POL,Europe,Warsaw,Poland,Europe/Warsaw\n\
    PT,PRT,Europe,Lisbon,Portugal,\"Europe/Lisbon,Atlantic/Madeira,Atlantic/Azores\"\n\
    RO,ROU,Europe,Bucharest,Romania,Europe/Bucharest\n\
    RU,RUS,Europe,Moscow,Russia,\"Europe/Kaliningrad,Europe/Moscow,Europe/Samara,Asia/Yekaterinburg,Asia/Omsk,Asia/Novosibirsk,Asia/Krasnoyarsk,Asia/Irkutsk,Asia/Yakutsk,Asia/Vladivostok,Asia/Magadan,Asia/Kamchatka\"\n\
    SA,SAU,Asia,Riyadh,Saudi Arabia,Asia/Riyadh\n\
    SE,SWE,Europe,Stockholm,Sweden,Europe/Stockholm\n\
    SG,SGP,Asia,Singapore,Singapore,Asia/Singapore\n\
    TH,THA,Asia,Bangkok,Thailand,Asia/Bangkok\n\
    TR,TUR,Asia,Ankara,Turkey,Europe/Istanbul\n\
    UA,UKR,Europe,Kyiv,Ukraine,\"Europe/Kiev,Europe/Simferopol\"\n\
    US,USA,North America,Washington,United States,\"America/New_York,America/Detroit,America/Chicago,America/Denver,America/Phoenix,America/Los_Angeles,America/Anchorage,America/Adak,Pacific/Honolulu\"\n\
    VN,VNM,Asia,Hanoi,Vietnam,Asia/Ho_Chi_Minh\n\
    ZA,ZAF,Africa,Pretoria,South Africa,Africa/Johannesburg";

} // verus!
