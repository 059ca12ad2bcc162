//! Two values without a square root in the base field of BN254: three, the
//! right-hand side of the equation of G1 at zero, and the norm of
//! `3 / (9 + u)`, the right-hand side of the equation of G2 at zero. So
//! neither group has a point whose first coordinate is zero. Each is shown
//! by square-and-multiply along the binary digits of the exponent of the
//! root, the leading digit first, thirty-six digits to a lemma.

use vstd::prelude::*;

use crate::field::{bn254_fq_modulus, bn254_fq_root, mod_pow};
use crate::power::lemma_pow_step;

verus! {

/// The norm of `3 / (9 + u)` in the base field of BN254: the sum of the
/// squares of `27 / 82` and of `3 / 82`.
pub open spec fn twist_constant_norm() -> nat {
    21087453498479301738505683583845423561061080261299122796980902361914303298513nat
}

/// The square of `v` in the base field of BN254.
spec fn squared(v: nat) -> nat {
    (v * v) % 21888242871839275222246405745257275088696311157297823662689037894645226208583nat
}

/// Three times `v` in the base field of BN254.
spec fn tripled(v: nat) -> nat {
    (3 * v) % 21888242871839275222246405745257275088696311157297823662689037894645226208583nat
}

/// The norm of `3 / (9 + u)` times `v` in the base field of BN254.
spec fn normed(v: nat) -> nat {
    (21087453498479301738505683583845423561061080261299122796980902361914303298513nat * v) % 21888242871839275222246405745257275088696311157297823662689037894645226208583nat
}

/// The power of `a` to `e` in the base field of BN254.
#[verifier::opaque]
spec fn power_of(a: nat, e: nat) -> nat {
    mod_pow(bn254_fq_modulus(), a, e)
}

/// The power to zero is one.
proof fn lemma_power_to_zero(a: nat)
    ensures
        power_of(a, 0) == 1,
{
    reveal(power_of);
}

/// From the power of `a` to `e`, the square is the power to `2 * e`.
proof fn lemma_square(a: nat, e: nat, v: nat) -> (d: nat)
    requires
        power_of(a, e) == v,
    ensures
        d == 2 * e,
        power_of(a, d) == squared(v),
{
    reveal(power_of);
    lemma_pow_step(bn254_fq_modulus(), a, e, false);
    2 * e
}

/// From the power of three to `e`, three times it is the power to `e + 1`.
proof fn lemma_triple(e: nat, v: nat) -> (n: nat)
    requires
        power_of(3, e) == v,
    ensures
        n == e + 1,
        power_of(3, n) == tripled(v),
{
    reveal(power_of);
    e + 1
}

/// From the power of the norm to `e`, the norm times it is the power to
/// `e + 1`.
proof fn lemma_norm_times(e: nat, v: nat) -> (n: nat)
    requires
        power_of(twist_constant_norm(), e) == v,
    ensures
        n == e + 1,
        power_of(twist_constant_norm(), n) == normed(v),
{
    reveal(power_of);
    e + 1
}

/// The power of three to the leading 36 binary digits of the exponent of the
/// root.
proof fn lemma_three_to_36_digits()
    ensures
        power_of(3, 51960323256nat) == 14684171908361036228633735226317062581451336115366268216447139061408424614188nat,
{
    lemma_power_to_zero(3);
    let e0: nat = 0;
    let e1: nat = lemma_square(3, e0, 1nat);
    let e2: nat = lemma_triple(e1, 1nat);
    let e3: nat = lemma_square(3, e2, 3nat);
    let e4: nat = lemma_triple(e3, 9nat);
    let e5: nat = lemma_square(3, e4, 27nat);
    let e6: nat = lemma_square(3, e5, 729nat);
    let e7: nat = lemma_square(3, e6, 531441nat);
    let e8: nat = lemma_square(3, e7, 282429536481nat);
    let e9: nat = lemma_square(3, e8, 79766443076872509863361nat);
    let e10: nat = lemma_square(3, e9, 6362685441135942358474828762538534230890216321nat);
    let e11: nat = lemma_triple(e10, 2761922516890432007361501793849997429896015701843940833222919981823133754883nat);
    let e12: nat = lemma_square(3, e11, 8285767550671296022084505381549992289688047105531822499668759945469401264649nat);
    let e13: nat = lemma_triple(e12, 18603043702591589390385410088301215858442106781483037674018514312555414814317nat);
    let e14: nat = lemma_square(3, e13, 12032645364096217726663418774389097397933698029853465696677467148375792025785nat);
    let e15: nat = lemma_square(3, e14, 10720926162174915799133957941839790476087088477684948206570027040058967979607nat);
    let e16: nat = lemma_square(3, e15, 653705856699061519562630644377102924487433399565900283391621394561920015200nat);
    let e17: nat = lemma_triple(e16, 3678337777561861888972588092047543937707089433572497562608120467990925775348nat);
    let e18: nat = lemma_square(3, e17, 11035013332685585666917764276142631813121268300717492687824361403972777326044nat);
    let e19: nat = lemma_square(3, e18, 6668933299697619710003086423277124683035548477328100854015942755561197329607nat);
    let e20: nat = lemma_square(3, e19, 2924210066484398764618150207140168490436410784917964781657369979722942407744nat);
    let e21: nat = lemma_square(3, e20, 4125388266795915217526829947128526978978935773561165958221388810401929438181nat);
    let e22: nat = lemma_triple(e21, 571910321924607321406835774659625359948200508870808804367146711295648371789nat);
    let e23: nat = lemma_square(3, e22, 1715730965773821964220507323978876079844601526612426413101440133886945115367nat);
    let e24: nat = lemma_square(3, e23, 19583572409628956779026665223435416673499611377620110436708458894419461058051nat);
    let e25: nat = lemma_square(3, e24, 2821547709732768266239841725367802956709392310885588798509937403131999585768nat);
    let e26: nat = lemma_triple(e25, 8883652848868344148952897563767129560194885697467908261228073715697859522068nat);
    let e27: nat = lemma_square(3, e26, 4762715674765757224612286946044113591888345935105901120995183252448352357621nat);
    let e28: nat = lemma_triple(e27, 17109166418141596987280894953057368737579223755168404942244282494007955629292nat);
    let e29: nat = lemma_square(3, e28, 7551013510746240517349873368657556035345048950909567501354771692733414470710nat);
    let e30: nat = lemma_triple(e29, 12255375975749110201802936845444661585188039821233755179271825246208831607166nat);
    let e31: nat = lemma_square(3, e30, 14877885055408055383162404791076709666867808306403441875126437843981268612915nat);
    let e32: nat = lemma_square(3, e31, 20716970516021300426857017460276015645329027075114320559021256593731428033928nat);
    let e33: nat = lemma_square(3, e32, 4465215126731577662207498208133157365398891936010028698363252892264607225903nat);
    let e34: nat = lemma_triple(e33, 680014379036013699969636768749552049410481515580417146447511892880008137657nat);
    let e35: nat = lemma_square(3, e34, 2040043137108041099908910306248656148231444546741251439342535678640024412971nat);
    let e36: nat = lemma_triple(e35, 2170494657165010956234972507130061560274723222406649901820500937037127345659nat);
    let e37: nat = lemma_square(3, e36, 6511483971495032868704917521390184680824169667219949705461502811111382036977nat);
    let e38: nat = lemma_triple(e37, 6102347411660706776919057552928001875781188047150148598366733874386181756301nat);
    let e39: nat = lemma_square(3, e38, 18307042234982120330757172658784005627343564141450445795100201623158545268903nat);
    let e40: nat = lemma_square(3, e39, 1161252620224752131198444720694685948169763521015709717810937601490610915238nat);
    let e41: nat = lemma_square(3, e40, 8044012535326186770422519615466388313535171112987799882860729238128160231348nat);
    let e42: nat = lemma_triple(e41, 16991940699206253696817722091603681759404194695319854350446664882080381954103nat);
    let e43: nat = lemma_square(3, e42, 7199336353940210645960354784296495100819961771363915725961918856950693445143nat);
    let e44: nat = lemma_square(3, e43, 2637823550896316422185925106304998154841836042077540550884513696160416635090nat);
    let e45: nat = lemma_triple(e44, 9179822483718155549514557027011851069159586852771610996870567094755320694888nat);
    let e46: nat = lemma_square(3, e45, 5651224579315191426297265335778278118782449401017009327922663389620735876081nat);
    let e47: nat = lemma_triple(e46, 7881684199080873353922476392626699313477713521535170163018055918376724737998nat);
    let e48: nat = lemma_square(3, e47, 1756809725403344839521023432622822851736829407307686826365129860484948005411nat);
    let e49: nat = lemma_triple(e48, 3527384038925210195244401278427298375321968146820813302463366948976730797574nat);
    let e50: nat = lemma_square(3, e49, 10582152116775630585733203835281895125965904440462439907390100846930192392722nat);
    let e51: nat = lemma_square(3, e50, 17167412223861677053247147616459908008652566569799333806423576891407701871251nat);
    let e52: nat = lemma_square(3, e51, 8726091675795004014072034383719206010804209726337529389273846049621313981866nat);
}

/// The power of three to the leading 72 binary digits of the exponent of the
/// root.
proof fn lemma_three_to_72_digits()
    ensures
        power_of(3, 3570686225206241961697nat) == 4146253645641723755441247254747165941074958170375330961198250779675493225968nat,
{
    lemma_three_to_36_digits();
    let e52: nat = 51960323256nat;
    let e53: nat = lemma_square(3, e52, 14684171908361036228633735226317062581451336115366268216447139061408424614188nat);
    let e54: nat = lemma_square(3, e53, 1532302758983705752826256643750561364860023895811423031463796476853512137458nat);
    let e55: nat = lemma_triple(e54, 13982452012096332566090422588233120196088881117382646459230476582421783292843nat);
    let e56: nat = lemma_square(3, e55, 20059113164449722476024862019442085499570332194850115715002391852620123669946nat);
    let e57: nat = lemma_square(3, e56, 12260769873075540860541594523444723236950209416138760497408651365686192425334nat);
    let e58: nat = lemma_square(3, e57, 15710775630475212692876095929295991737827532099417490717393753669345417067059nat);
    let e59: nat = lemma_triple(e58, 4384753955356078971416951511502612462421270033479042056033026011835448327152nat);
    let e60: nat = lemma_square(3, e59, 13154261866068236914250854534507837387263810100437126168099078035506344981456nat);
    let e61: nat = lemma_triple(e60, 7171603078113290346511657473701599128199493435796100055162803876869135429909nat);
    let e62: nat = lemma_square(3, e61, 21514809234339871039534972421104797384598480307388300165488411630607406289727nat);
    let e63: nat = lemma_square(3, e62, 1511276980661715942496272677285772740875930659541551532180529079623016258731nat);
    let e64: nat = lemma_square(3, e63, 1822488851241516275301322618364631226576347226278706963507607059661858765976nat);
    let e65: nat = lemma_square(3, e64, 4999346056887412793414245782437888801158210660271461422532901031066190920500nat);
    let e66: nat = lemma_triple(e65, 3813738035041190756432063445894441113105542325761877639458430728021275901268nat);
    let e67: nat = lemma_square(3, e66, 11441214105123572269296190337683323339316626977285632918375292184063827703804nat);
    let e68: nat = lemma_triple(e67, 11429779749258604195241714302435945534567428435732981138371362586130785443370nat);
    let e69: nat = lemma_square(3, e68, 12401096375936537363478737162050561515005974149901119752425049863747130121527nat);
    let e70: nat = lemma_square(3, e69, 16455939258734788606637556244183862012165538143464413277289356206208461760270nat);
    let e71: nat = lemma_triple(e70, 3750035245454027717422952670521560340388675361550689933185839847981919201129nat);
    let e72: nat = lemma_square(3, e71, 11250105736362083152268858011564681021166026084652069799557519543945757603387nat);
    let e73: nat = lemma_square(3, e72, 16431425480501984440494981538270612719506649183699987520843235526084505368371nat);
    let e74: nat = lemma_square(3, e73, 10550527855011969414482691572688930440289073110337027487622031947868505198211nat);
    let e75: nat = lemma_square(3, e74, 18767511153883594143334570420515633892068340356977938416676901538138836246195nat);
    let e76: nat = lemma_square(3, e75, 15268662102257889883638531087220200065661829494884796944597680813759602094013nat);
    let e77: nat = lemma_square(3, e76, 1725713184447246733185457272308889037862618756915564241109678052603337752078nat);
    let e78: nat = lemma_square(3, e77, 10426773375396206115634278024161291068313018317138700020272157748399093852068nat);
    let e79: nat = lemma_square(3, e78, 3002008135698019307621025141475509677836934219805679131569701017950792827194nat);
    let e80: nat = lemma_triple(e79, 5376040286527082363019051098539065604757212866516648293777044202142855025023nat);
    let e81: nat = lemma_square(3, e80, 16128120859581247089057153295617196814271638599549944881331132606428565075069nat);
    let e82: nat = lemma_square(3, e81, 8275789628920957561423975252472355391377536943108645916315921727406862253685nat);
    let e83: nat = lemma_triple(e82, 13752886428365160430552730567239613405853231309078017969145887384741944188604nat);
    let e84: nat = lemma_square(3, e83, 19370416413256206069411785956461565128863382769936230244748624259580606357229nat);
    let e85: nat = lemma_square(3, e84, 21400694806758502714424662429445222387305729074283342841798627469024040186368nat);
    let e86: nat = lemma_square(3, e85, 987496274653328976947963664289091017459485179443793947514586751806378241062nat);
    let e87: nat = lemma_triple(e86, 11127734745743635536089015038330693506701417134185849487178398938672483891354nat);
    let e88: nat = lemma_square(3, e87, 11494961365391631386020639369734805431407940245259724798846158921372225465479nat);
    let e89: nat = lemma_triple(e88, 2383674768999661036488367169021780853470744114033987355715881519305903738706nat);
    let e90: nat = lemma_square(3, e89, 7151024306998983109465101507065342560412232342101962067147644557917711216118nat);
    let e91: nat = lemma_square(3, e90, 12422107479418564588505691696080421156924808519046288376978627885458616105683nat);
    let e92: nat = lemma_triple(e91, 9906712872283381370676160600331563868607895964082101084896953391805679970860nat);
    let e93: nat = lemma_square(3, e92, 7831895745010868889782076055737416517127376734948479592001822280771813703997nat);
    let e94: nat = lemma_triple(e93, 84599147402104138409065714604276277834446299673655463092571336457150989365nat);
    let e95: nat = lemma_square(3, e94, 253797442206312415227197143812828833503338899020966389277714009371452968095nat);
    let e96: nat = lemma_triple(e95, 4509501952251807455534728234210177242346061345040283842231411927240654946183nat);
    let e97: nat = lemma_square(3, e96, 13528505856755422366604184702630531727038184035120851526694235781721964838549nat);
    let e98: nat = lemma_square(3, e97, 5912294820627953392166132698137592879584490007424156261549414712287513715047nat);
    let e99: nat = lemma_square(3, e98, 10737228551341653193904539867163901808239166548537613629272155713952979217187nat);
    let e100: nat = lemma_square(3, e99, 17259787753374307416884879560923436098283207182660310688822025576488363541649nat);
    let e101: nat = lemma_square(3, e100, 1209925229845234085855412108644203721161020043706728482957746559113001201933nat);
    let e102: nat = lemma_triple(e101, 15974246463106758066644686248420572039489193494990326095525442189655315214378nat);
}

/// The power of three to the leading 108 binary digits of the exponent of the
/// root.
proof fn lemma_three_to_108_digits()
    ensures
        power_of(3, 245375688984616001288841466847328nat) == 17022067387799334571346233829642838734466929394764863452484777080241474885739nat,
{
    lemma_three_to_72_digits();
    let e102: nat = 3570686225206241961697nat;
    let e103: nat = lemma_square(3, e102, 4146253645641723755441247254747165941074958170375330961198250779675493225968nat);
    let e104: nat = lemma_square(3, e103, 6499153609486948170160198168380655074369931658208985646148823056180146784201nat);
    let e105: nat = lemma_triple(e104, 11297104031660963204017382858129247737740628834707732923602781090073435630803nat);
    let e106: nat = lemma_square(3, e105, 12003069223143614389805742829130468124525575346825375108119305375575080683826nat);
    let e107: nat = lemma_square(3, e106, 9073652237257286660546901147417452507549860068354373726937185028294280366101nat);
    let e108: nat = lemma_square(3, e107, 12415186653965936909334236213526986438261890540656123558929339529878466594983nat);
    let e109: nat = lemma_square(3, e108, 7662412123106163067398766292557392694925474778871970481483601599206665418858nat);
    let e110: nat = lemma_square(3, e109, 11607561685955257480370485616788613092221947604755376409508364801320397003689nat);
    let e111: nat = lemma_square(3, e110, 2850340570566894577019543514801277659381855454188612476024688988040762755463nat);
    let e112: nat = lemma_triple(e111, 7119860277570770946031279950820956495927860224688967290223423061830496946701nat);
    let e113: nat = lemma_square(3, e112, 21359580832712312838093839852462869487783580674066901870670269185491490840103nat);
    let e114: nat = lemma_square(3, e113, 10945717853452218561770737274187769524852106253704046408990827679912201306266nat);
    let e115: nat = lemma_square(3, e114, 12647129595177094640396516443154731677177146681070051210156001100580868013502nat);
    let e116: nat = lemma_square(3, e115, 18637325768277973272717499136207845436186405061687493985262055650442220934875nat);
    let e117: nat = lemma_triple(e116, 20785477553345413341964046955188123013380217432266029012617942261698046152032nat);
    let e118: nat = lemma_square(3, e117, 18579946916357689581399329375049818862748029982202439712475750995803686038930nat);
    let e119: nat = lemma_square(3, e118, 13529165380620181111378895027913266622099407175904185417253391412989490788364nat);
    let e120: nat = lemma_triple(e119, 4858590372122018253215980324357738687213177792527025836325770324262271197604nat);
    let e121: nat = lemma_square(3, e120, 14575771116366054759647940973073216061639533377581077508977310972786813592812nat);
    let e122: nat = lemma_triple(e121, 9283032379994060708154185004044476437074127864161782011249584261348222150592nat);
    let e123: nat = lemma_square(3, e122, 5960854268142906902216149266876154222526072435187522371059714889399440243193nat);
    let e124: nat = lemma_square(3, e123, 15915341443416009940124866150846629349091195694579733653156139881947650054086nat);
    let e125: nat = lemma_triple(e124, 18667228497385813711065334457602843991676531625565003797655123294475551944188nat);
    let e126: nat = lemma_square(3, e125, 12225199748478890688703191882293981797636972562099364067587294094136203415398nat);
    let e127: nat = lemma_triple(e126, 8228993130742423040069203052595439926473551355253891933944979983201383215984nat);
    let e128: nat = lemma_square(3, e127, 2798736520387993897961203412529044690724342908463852139145902054958923439369nat);
    let e129: nat = lemma_square(3, e128, 10004082005575823522208222667496890130729759350987406274551713472243514717797nat);
    let e130: nat = lemma_triple(e129, 3106426558360504702784058900513086410003657350629683160070153577216484130537nat);
    let e131: nat = lemma_square(3, e130, 9319279675081514108352176701539259230010972051889049480210460731649452391611nat);
    let e132: nat = lemma_triple(e131, 7513829649914948509130218489449066541688784401825703275851003911429010520472nat);
    let e133: nat = lemma_square(3, e132, 653246077905570305144249723089924536370042048179286164863973839641805352833nat);
    let e134: nat = lemma_square(3, e133, 20395799627873017315367700586020698727100777169685934782273990765397226400019nat);
    let e135: nat = lemma_triple(e134, 9361169841724949361142831621267292289980781755901566802031808506677449811812nat);
    let e136: nat = lemma_square(3, e135, 6195266653335572861182089118544601781246034110406876743406387625387123226853nat);
    let e137: nat = lemma_square(3, e136, 10222654717609706842583794427144366542502336176914331287784458793398998914163nat);
    let e138: nat = lemma_square(3, e137, 9731781817366961062794919596158585663055813637137672655796346307687409129841nat);
    let e139: nat = lemma_square(3, e138, 4571771260059654251712673222206185176636438123173780110423437210842270914134nat);
    let e140: nat = lemma_square(3, e139, 9975774472296724932864274980796069663141627632990907659851760082367306794483nat);
    let e141: nat = lemma_square(3, e140, 2986079417151647044510064917016112667039523889161181528652366259070676667703nat);
    let e142: nat = lemma_square(3, e141, 13753821945240438280270705412062741761376896182281740685654044513230858690835nat);
    let e143: nat = lemma_triple(e142, 8081302621714515089536725711821780152535857373465594641257321536719038431137nat);
    let e144: nat = lemma_square(3, e143, 2355664993304270046363771390208065368911260963098960261082926715511889084828nat);
    let e145: nat = lemma_triple(e144, 1955250051299979577436705622384134962169076472175731292333154089246034337860nat);
    let e146: nat = lemma_square(3, e145, 5865750153899938732310116867152404886507229416527193876999462267738103013580nat);
    let e147: nat = lemma_square(3, e146, 7965298423161303603144117235595054206044005303565294627998706470370094647201nat);
    let e148: nat = lemma_square(3, e147, 17784034022584768330477492979928764079383711146043745097882619772061133433934nat);
    let e149: nat = lemma_square(3, e148, 6656396095773158830520112266879485725935803496335962109417525728917601057159nat);
    let e150: nat = lemma_square(3, e149, 16940265572733895999215407897093668058129679919147094000102279744994259060081nat);
}

/// The power of three to the leading 144 binary digits of the exponent of the
/// root.
proof fn lemma_three_to_144_digits()
    ensures
        power_of(3, 16862088950758290762461887197407094869745157nat) == 8785614065023029986149468134202840608116919166287252988538792733082336453170nat,
{
    lemma_three_to_108_digits();
    let e150: nat = 245375688984616001288841466847328nat;
    let e151: nat = lemma_square(3, e150, 17022067387799334571346233829642838734466929394764863452484777080241474885739nat);
    let e152: nat = lemma_square(3, e151, 4847034100061555022287578348946998438652484517656792604156724383329058281421nat);
    let e153: nat = lemma_triple(e152, 12867381189074929798865493807045924292686814834389343787309148090652620927687nat);
    let e154: nat = lemma_square(3, e153, 16713900695385514174350075675880497789364133345870207699238406377312636574478nat);
    let e155: nat = lemma_square(3, e154, 3884943192578571398878386824838982745979122465367117804497291545949237015054nat);
    let e156: nat = lemma_triple(e155, 2217701380951694075717872624369743166585332651564248443649040716558650578389nat);
    let e157: nat = lemma_square(3, e156, 6653104142855082227153617873109229499755997954692745330947122149675951735167nat);
    let e158: nat = lemma_square(3, e157, 5051584323319904584635841900441662967729799355911363660217398978817843193859nat);
    let e159: nat = lemma_triple(e158, 5848893809693605929273076293193060949300979885637714900930914595028452198958nat);
    let e160: nat = lemma_square(3, e159, 17546681429080817787819228879579182847902939656913144702792743785085356596874nat);
    let e161: nat = lemma_triple(e160, 20621337874625757331175576961969273149213803879490027974834248631108925141254nat);
    let e162: nat = lemma_square(3, e161, 18087527880198721549033919395393269270248789323874436599124670104036323006596nat);
    let e163: nat = lemma_square(3, e162, 14204569497472436469350780571020169288539449655402943266857306872164617180681nat);
    let e164: nat = lemma_square(3, e163, 17026918451691532544990742933094342628678797250362156262250683319850358775013nat);
    let e165: nat = lemma_square(3, e164, 5606910652183103511407557857910248666299143712160909280073613513798880468344nat);
    let e166: nat = lemma_square(3, e165, 14523676083867553099519042892986370735175460594566321448488661288619730456691nat);
    let e167: nat = lemma_triple(e166, 5607582609945754662351195069714204150882846655863038791576418342938584955709nat);
    let e168: nat = lemma_square(3, e167, 16822747829837263987053585209142612452648539967589116374729255028815754867127nat);
    let e169: nat = lemma_square(3, e168, 9411679476228712423823602968221100410538787297672429093938958113992784507509nat);
    let e170: nat = lemma_triple(e169, 914393781804985703323919460031290903006309094263506283558856286902354555835nat);
    let e171: nat = lemma_square(3, e170, 2743181345414957109971758380093872709018927282790518850676568860707063667505nat);
    let e172: nat = lemma_triple(e171, 6741897488244735248568907035817563769294176342781072693492003094556589836891nat);
    let e173: nat = lemma_square(3, e172, 20225692464734205745706721107452691307882529028343218080476009283669769510673nat);
    let e174: nat = lemma_triple(e173, 5537893162358826783201845087520074279766482212450759966261605118807088009469nat);
    let e175: nat = lemma_square(3, e174, 16613679487076480349605535262560222839299446637352279898784815356421264028407nat);
    let e176: nat = lemma_square(3, e175, 16122904132203659131834928543017014950641860274544097012594392378435624986177nat);
    let e177: nat = lemma_triple(e176, 19832301586877374912466326674550572091828425387673129141202387206468810330825nat);
    let e178: nat = lemma_square(3, e177, 15720419016953574292906168533137166098092653848423740098229085830115978575309nat);
    let e179: nat = lemma_triple(e178, 3208559129963568514196224721690035655768533065202079831732281262690020007626nat);
    let e180: nat = lemma_square(3, e179, 9625677389890705542588674165070106967305599195606239495196843788070060022878nat);
    let e181: nat = lemma_square(3, e180, 10525062496231510627752966828184837740021979055141595557721414581167806295605nat);
    let e182: nat = lemma_square(3, e181, 15344104737930043612489906949502322271935538491157597492181077865468026080393nat);
    let e183: nat = lemma_triple(e182, 3383513377608063606438751008776857347176141922976586956670311515269359088767nat);
    let e184: nat = lemma_square(3, e183, 10150540132824190819316253026330572041528425768929760870010934545808077266301nat);
    let e185: nat = lemma_square(3, e184, 16672107897244876457856519175311575434239414427903446921624996090427948163630nat);
    let e186: nat = lemma_triple(e185, 13849290275016508201798636538856038080781266631075416506986571170102876495073nat);
    let e187: nat = lemma_square(3, e186, 19659627953210249383149503871310839153647488735928425858270675615663403276636nat);
    let e188: nat = lemma_triple(e187, 17682859401529609416229961379613441771462338802088445498394568706023394804073nat);
    let e189: nat = lemma_square(3, e188, 9272092460910277804197072648325775136994394091669689169805630328779731995053nat);
    let e190: nat = lemma_triple(e189, 5438281057340043982161231335722842265249085804433500090351785988608626408943nat);
    let e191: nat = lemma_square(3, e190, 16314843172020131946483694007168526795747257413300500271055357965825879226829nat);
    let e192: nat = lemma_triple(e191, 9316893206816482576184091019928350343665316392408784547507519571281500713315nat);
    let e193: nat = lemma_square(3, e192, 6062436748610172506305867314527775942299638019928529979833520819199275931362nat);
    let e194: nat = lemma_square(3, e193, 19151964499747570448800890048054619553352535245642944738092942347840074915693nat);
    let e195: nat = lemma_square(3, e194, 3998921545155513232581682886432076687909154059120558287518733687142149885847nat);
    let e196: nat = lemma_square(3, e195, 16532852968755321357468725825719651938925114890043715051255884602862042796276nat);
    let e197: nat = lemma_square(3, e196, 1444564857470117514732952827751194505458580679772247417784976884267542396068nat);
    let e198: nat = lemma_square(3, e197, 11778070108129115311509304368665616687609211639652668315949220647703472894828nat);
    let e199: nat = lemma_square(3, e198, 11015077048399899932347401765015216844097667857663379626977046544342380279816nat);
    let e200: nat = lemma_triple(e199, 3008432268361587982134166508044547566981885167048113341809700120075071420053nat);
    let e201: nat = lemma_square(3, e200, 9025296805084763946402499524133642700945655501144340025429100360225214260159nat);
    let e202: nat = lemma_square(3, e201, 9583590936115963498992891248779158352512442487024264214442481428693818941513nat);
    let e203: nat = lemma_triple(e202, 2928538021674343328716489378067613536038973055429084329512930911027445484390nat);
}

/// The power of three to the leading 180 binary digits of the exponent of the
/// root.
proof fn lemma_three_to_180_digits()
    ensures
        power_of(3, 1158753929371997011610123359348873095422797312417209458nat) == 5219593839002166204650789607198691893877949597038304633780750667998809659268nat,
{
    lemma_three_to_144_digits();
    let e203: nat = 16862088950758290762461887197407094869745157nat;
    let e204: nat = lemma_square(3, e203, 8785614065023029986149468134202840608116919166287252988538792733082336453170nat);
    let e205: nat = lemma_triple(e204, 11158380413694378456052458651316884395512660524131702189733524678425122150739nat);
    let e206: nat = lemma_square(3, e205, 11586898369243860145910970208693378097841670415097282906511536140630140243634nat);
    let e207: nat = lemma_square(3, e206, 8666250569375915410017975206835674587983126807101688386026597020463679158934nat);
    let e208: nat = lemma_triple(e207, 10162157072097851712634055550985906794169206719885685667797891835195485962077nat);
    let e209: nat = lemma_square(3, e208, 8598228344454279915655760907700445293811309002359233340704637610941231677648nat);
    let e210: nat = lemma_square(3, e209, 2334865838361640823408558456070741039587457501057664507717653528232614122093nat);
    let e211: nat = lemma_triple(e210, 15473196627180532686657260918076394348827203267908760226897333713256448123887nat);
    let e212: nat = lemma_square(3, e211, 2643104137863047615478971263714632869088987489130633355313925350478891954495nat);
    let e213: nat = lemma_square(3, e212, 19097010075050923310033589509202065403354543934527207969290827559616616903395nat);
    let e214: nat = lemma_triple(e213, 10430638894463051719434626263924330295873776419164236914482212293242611693265nat);
    let e215: nat = lemma_square(3, e214, 9403673811549879936057473046515715798925018100194887080757598985082608871212nat);
    let e216: nat = lemma_square(3, e215, 18402422435355209317119605663990777667384909129300386877186380599943932640468nat);
    let e217: nat = lemma_square(3, e216, 609288772681103351011804998103324342434585557438019091191367102408974726595nat);
    let e218: nat = lemma_triple(e217, 11834431384540642768192241825317659522729589000226257384035761131513484876248nat);
    let e219: nat = lemma_square(3, e218, 13615051281782653082330319730695703479492455843380948489418245499895228420161nat);
    let e220: nat = lemma_square(3, e219, 5538393876777555129455702313478798225275804415900920844144217384154575915752nat);
    let e221: nat = lemma_square(3, e220, 14922455273998334548625672241201253309876608554054426509769979234249466028195nat);
    let e222: nat = lemma_square(3, e221, 3636881879860223241953580529392311938244810596649424369978843935568178642840nat);
    let e223: nat = lemma_triple(e222, 5889572860507361420097258924028915465403206270600085914460679946772498195373nat);
    let e224: nat = lemma_square(3, e223, 17668718581522084260291776772086746396209618811800257743382039840317494586119nat);
    let e225: nat = lemma_square(3, e224, 372346543898029311548303045692132101170555268176396872043190536907528614803nat);
    let e226: nat = lemma_triple(e225, 21187182366206972491194891457941194731639421666986777358111797575732618712235nat);
    let e227: nat = lemma_square(3, e226, 19785061354942367029091862883309034017525642686364684748957316937907403719539nat);
    let e228: nat = lemma_triple(e227, 15852320346930117076364354801765627467280548464131432876399114414785306252214nat);
    let e229: nat = lemma_square(3, e228, 3780475297111800784600252914782332224449023077798651303819267455065466339476nat);
    let e230: nat = lemma_square(3, e229, 13865079957831170746318673555269267002668278683550062485203978209522377087nat);
    let e231: nat = lemma_triple(e230, 15946198300426656079527790905780005061829410144947746532311736109788882211081nat);
    let e232: nat = lemma_square(3, e231, 4062109157601417794090561226825465008095608120247592271557132540076194216077nat);
    let e233: nat = lemma_square(3, e232, 11931082372983520896593585244268687819957879430049257087627673256451894822430nat);
    let e234: nat = lemma_square(3, e233, 12100371119988840873695279563537954205606297064467846146601904398609552932983nat);
    let e235: nat = lemma_square(3, e234, 14672379941594610389737659973434540516883313867167993041249837528394529856927nat);
    let e236: nat = lemma_square(3, e235, 18915249985578497808724548868514524542041257937183454780701919853742622959519nat);
    let e237: nat = lemma_triple(e236, 17951510732652957901806028751450152007808694978783549431976141646106190390924nat);
    let e238: nat = lemma_square(3, e237, 10078046454280323260925274763835905846033462621755000970550349149028118755606nat);
    let e239: nat = lemma_triple(e238, 19472026232443933399753820081902563813038791594207105925541426611658553383517nat);
    let e240: nat = lemma_square(3, e239, 14639592953653249754768648755193141261723752468025670451246204045685207733385nat);
    let e241: nat = lemma_triple(e240, 1740376815739276346632859808707439529165799926092000897408089366557599056812nat);
    let e242: nat = lemma_square(3, e241, 5221130447217829039898579426122318587497399778276002692224268099672797170436nat);
    let e243: nat = lemma_square(3, e242, 10196028080798164258702865070485557047056715609226273325550120030552069366704nat);
    let e244: nat = lemma_square(3, e243, 19520981676112112671393011655232145424035703463030535421949476504637059976723nat);
    let e245: nat = lemma_square(3, e244, 5027642907396112798587877368119211430670612464130733170055675633948645583359nat);
    let e246: nat = lemma_triple(e245, 13118113999683516645351931693039293195240502063551647550119184643084010206901nat);
    let e247: nat = lemma_square(3, e246, 17466099127211274713809389333860604497025195033357118987668516034606804412120nat);
    let e248: nat = lemma_triple(e247, 19604364774762953938345337310116183201767628700150288242821712938169885807076nat);
    let e249: nat = lemma_square(3, e248, 15036608580610311370543200439833999427910263785855217403087063025219205004062nat);
    let e250: nat = lemma_triple(e249, 12888666841234666314371247659169278540899440196884368338158895250357782601221nat);
    let e251: nat = lemma_square(3, e250, 16777757651864723720867337232250560534002009433355281351787647856428121595080nat);
    let e252: nat = lemma_square(3, e251, 2919460768976218132973793478794059743515005391309383466566469730444900759699nat);
    let e253: nat = lemma_square(3, e252, 6411722101419204154424257952173954809261328359414733481315945105117456832853nat);
    let e254: nat = lemma_triple(e253, 10595770956911869669488210500489048149820355263300239698971129443966953597023nat);
    let e255: nat = lemma_square(3, e254, 9899069998896333786218225756209869360764754632602895434224350437255634582486nat);
}

/// The power of three to the leading 216 binary digits of the exponent of the
/// root.
proof fn lemma_three_to_216_digits()
    ensures
        power_of(3, 79628963692227535729203394094865052788723227994697749318908019248nat) == 5328201080801575644951618863687490820441449243929327999446269859217315288862nat,
{
    lemma_three_to_180_digits();
    let e255: nat = 1158753929371997011610123359348873095422797312417209458nat;
    let e256: nat = lemma_square(3, e255, 5219593839002166204650789607198691893877949597038304633780750667998809659268nat);
    let e257: nat = lemma_triple(e256, 4962746165411591127837554181966311627140012172785697605353557677291498215347nat);
    let e258: nat = lemma_square(3, e257, 14888238496234773383512662545898934881420036518357092816060673031874494646041nat);
    let e259: nat = lemma_square(3, e258, 20367347241606665315030094538725359707348834213582199532414760871062873417306nat);
    let e260: nat = lemma_triple(e259, 17512469164312174025873948790050873083900035801473841483717499039286472384744nat);
    let e261: nat = lemma_square(3, e260, 8760921749257971633129034879638069074307485089825877125774421328568964737066nat);
    let e262: nat = lemma_square(3, e261, 8123166067298537978222446884032769923670022611441883629410232061172745829887nat);
    let e263: nat = lemma_square(3, e262, 2174696808959866014821781861400651223879350035323961702932637547368567095002nat);
    let e264: nat = lemma_square(3, e263, 9181013028346407355025450876613131800256871376095373575997408836148371075410nat);
    let e265: nat = lemma_triple(e264, 6577266048721866674566051156205389185017950533778922769877807866285381194068nat);
    let e266: nat = lemma_square(3, e265, 19731798146165600023698153468616167555053851601336768309633423598856143582204nat);
    let e267: nat = lemma_triple(e266, 19011241940531501752010790502470083102039698835419097945805293941906693091126nat);
    let e268: nat = lemma_square(3, e267, 13257240077915954811539560016895699128726474191661646512037806036429626856212nat);
    let e269: nat = lemma_square(3, e268, 16505926378648818779643383419891290065249433331376188942408817837921207768536nat);
    let e270: nat = lemma_triple(e269, 5976628050821957008599908725042833048716465902556898502377309546912025306588nat);
    let e271: nat = lemma_square(3, e270, 17929884152465871025799726175128499146149397707670695507131928640736075919764nat);
    let e272: nat = lemma_square(3, e271, 8886286611811469846852277824421428538786844937381656786827887073975628584494nat);
    let e273: nat = lemma_square(3, e272, 9077602687719012189988668326511141413451771308855762944556268912403707647183nat);
    let e274: nat = lemma_triple(e273, 12712274811862665422269610034118099954679785365129847770288527065711832522534nat);
    let e275: nat = lemma_square(3, e274, 16248581563748721044562424357097024775343044938091719648176543302490271359019nat);
    let e276: nat = lemma_triple(e275, 14455125433284077930159634677117126029109723146976520612678175768796307854306nat);
    let e277: nat = lemma_square(3, e276, 21477133428012958568232498286094102998632858283631738175345489411743697354335nat);
    let e278: nat = lemma_triple(e277, 11286819298851058644584745908775673978336149139766723389294151811606121226869nat);
    let e279: nat = lemma_square(3, e278, 11972215024713900711507831981069746846312136262002346505193417540173137472024nat);
    let e280: nat = lemma_triple(e279, 2629808865299640490663327923468731383609698143098693427278595422448262006347nat);
    let e281: nat = lemma_square(3, e280, 7889426595898921471989983770406194150829094429296080281835786267344786019041nat);
    let e282: nat = lemma_square(3, e281, 7995727774250377173181468821677903548197996113593333556486829102495818690004nat);
    let e283: nat = lemma_square(3, e282, 2924096441461178822868002859250074745737191225958120343908685047322779785298nat);
    let e284: nat = lemma_square(3, e283, 7166590381721608572035094519141120784625743412161008267194633649491319490722nat);
    let e285: nat = lemma_square(3, e284, 3835074735192982229508245538020716214736128799846543094770404116161692176915nat);
    let e286: nat = lemma_triple(e285, 12771842715130296571482541300500486880500903037568407466188396177446223208085nat);
    let e287: nat = lemma_square(3, e286, 16427285273551614492201218156244185552806397955407398735876150637693443415672nat);
    let e288: nat = lemma_square(3, e287, 15863588702252754585969262696555415891486793977415165641155417598536358715320nat);
    let e289: nat = lemma_square(3, e288, 3043020566943416786386356090091990383050525939401981026577819138031550258568nat);
    let e290: nat = lemma_square(3, e289, 12368745689537516103612805735835804839784439090369076699631744158154919316075nat);
    let e291: nat = lemma_square(3, e290, 3213082151032128141876883258806676405002008450356894232383755517294024088388nat);
    let e292: nat = lemma_square(3, e291, 5811619511354606638157746410726247854990629597944914002640019596469292486701nat);
    let e293: nat = lemma_triple(e292, 7467181714343868411999071005832341675899618616787385096100287861606792634981nat);
    let e294: nat = lemma_square(3, e293, 513302271192330013750807272239749939002544693064331625611825690175151696360nat);
    let e295: nat = lemma_square(3, e294, 3300548654124356320925016568063316670714557553891106804820599283832004710324nat);
    let e296: nat = lemma_square(3, e295, 11927061596946728389543044089060859764309693593778026764869529674623563627544nat);
    let e297: nat = lemma_square(3, e296, 4174269529011002544541837456739197847824742024458394630569047021114135763124nat);
    let e298: nat = lemma_triple(e297, 982979089348660800204633555901327003723420606295103974072685304499041092615nat);
    let e299: nat = lemma_square(3, e298, 2948937268045982400613900667703981011170261818885311922218055913497123277845nat);
    let e300: nat = lemma_triple(e299, 1859563890243868615236587520953046003434113170485418671374885992238500601879nat);
    let e301: nat = lemma_square(3, e300, 5578691670731605845709762562859138010302339511456256014124657976715501805637nat);
    let e302: nat = lemma_square(3, e301, 434745488207508896566106314993001934272005528142503580281399635839203772984nat);
    let e303: nat = lemma_square(3, e302, 3899262939256186282042207944930385754814006699703686243551216424085908036285nat);
    let e304: nat = lemma_square(3, e303, 12710653416624482319288578257891976256645608784230217219900957089016940067902nat);
}

/// The power of three to the leading 252 binary digits of the exponent of the
/// root.
proof fn lemma_three_to_252_digits()
    ensures
        power_of(3, 5472060717959818805561601436314318772174077789324455915672259473661306552146nat) == 4407920970296243842837207485651524041948558517760411303933nat,
{
    lemma_three_to_216_digits();
    let e304: nat = 79628963692227535729203394094865052788723227994697749318908019248nat;
    let e305: nat = lemma_square(3, e304, 5328201080801575644951618863687490820441449243929327999446269859217315288862nat);
    let e306: nat = lemma_square(3, e305, 15299832442126287349060917102548179115572605384903968543571544542915575739350nat);
    let e307: nat = lemma_triple(e306, 5100426019569645010071346346567482962221347528197250167835004901214700631253nat);
    let e308: nat = lemma_square(3, e307, 15301278058708935030214039039702448886664042584591750503505014703644101893759nat);
    let e309: nat = lemma_square(3, e308, 8318178245148353603224733127956500599418736779704310369204561000420540100715nat);
    let e310: nat = lemma_triple(e309, 21195179747654550359967464362904133226219772789281121049191456873902840456672nat);
    let e311: nat = lemma_square(3, e310, 19809053499285100635409581598197849501266696053247715822196294832418068952850nat);
    let e312: nat = lemma_triple(e311, 3329090809321942314996196561632927593260486199342815613414112010372785404287nat);
    let e313: nat = lemma_square(3, e312, 9987272427965826944988589684898782779781458598028446840242336031118356212861nat);
    let e314: nat = lemma_square(3, e313, 7345751134269432652363990423210607571023500860297818105888714854103864631090nat);
    let e315: nat = lemma_triple(e314, 4594776167689375432209565644093232603524039145607468282799598505820048956051nat);
    let e316: nat = lemma_square(3, e315, 13784328503068126296628696932279697810572117436822404848398795517460146868153nat);
    let e317: nat = lemma_triple(e316, 6992561919544157197630377485733444276659646716154292828231485313987810935383nat);
    let e318: nat = lemma_square(3, e317, 20977685758632471592891132457200332829978940148462878484694455941963432806149nat);
    let e319: nat = lemma_square(3, e318, 20123497746369285134235028177323850691022996805334668725030040438693248482693nat);
    let e320: nat = lemma_triple(e319, 1051277314039361692186598299426723621604308875253328146159032716686080619966nat);
    let e321: nat = lemma_square(3, e320, 3153831942118085076559794898280170864812926625759984438477098150058241859898nat);
    let e322: nat = lemma_triple(e321, 3357853580065631162022109813720981823066806660321654991951343187985989670722nat);
    let e323: nat = lemma_square(3, e322, 10073560740196893486066329441162945469200419980964964975854029563957969012166nat);
    let e324: nat = lemma_square(3, e323, 21707930818346291385208202197640188451336081700093699310886583872431715037732nat);
    let e325: nat = lemma_square(3, e324, 19474897698491195912596543327657445729204428542181326857791737580139346428146nat);
    let e326: nat = lemma_square(3, e325, 18332153993895142367765325432802086461723348749363824056148938749397955449082nat);
    let e327: nat = lemma_square(3, e326, 5708655197623308946922226439329859062003140941001574426140877269138040171077nat);
    let e328: nat = lemma_triple(e327, 13097885776829107936768909259064169740023255892484454848172422647128058235723nat);
    let e329: nat = lemma_square(3, e328, 17405414458648048588060322031935234131373456520155540881828230046738948498586nat);
    let e330: nat = lemma_triple(e329, 617664689660542068269922116967169280677852502322686654746191202033755927588nat);
    let e331: nat = lemma_square(3, e330, 1852994068981626204809766350901507842033557506968059964238573606101267782764nat);
    let e332: nat = lemma_triple(e331, 643974620523084738643798920909660951063072284663122063522495955932155008829nat);
    let e333: nat = lemma_square(3, e332, 1931923861569254215931396762728982853189216853989366190567487867796465026487nat);
    let e334: nat = lemma_triple(e333, 8985531127890419907728134132080843916660781311414823160547189779025149667758nat);
    let e335: nat = lemma_square(3, e334, 5068350511831984500937996650985256661286032776946645818952531442430222794691nat);
    let e336: nat = lemma_triple(e335, 12004267407093884886543033919021686760753272578709827147520822504793738226517nat);
    let e337: nat = lemma_square(3, e336, 14124559349442379437382696011807785193563506578831657779873429619735988470968nat);
    let e338: nat = lemma_square(3, e337, 20916011969207075424824954956631304625757058471426342271908634599760290021241nat);
    let e339: nat = lemma_square(3, e338, 14008026994544455324493929899208393038129397028564366973786873873409130841976nat);
    let e340: nat = lemma_triple(e339, 17271951609083864176880679196497464039638817924665884580025828609473746765134nat);
    let e341: nat = lemma_square(3, e340, 8039369083573042086149226098977841941523831459402006414699410039130787878236nat);
    let e342: nat = lemma_triple(e341, 8798474168371511640177073555305740268066763101860839650493525375095066442832nat);
    let e343: nat = lemma_square(3, e342, 4507179633275259698284814920659945715503978148284695288791538230639973119913nat);
    let e344: nat = lemma_triple(e343, 6212875714710109179035805348606523019850486629888447945583927885418500333878nat);
    let e345: nat = lemma_square(3, e344, 18638627144130327537107416045819569059551459889665343836751783656255501001634nat);
    let e346: nat = lemma_triple(e345, 17903314408198015579267981258660882942312782675649917887380770310210177744696nat);
    let e347: nat = lemma_square(3, e346, 9933457480915496293311132285468098649545725712354106336764235141340080816922nat);
    let e348: nat = lemma_triple(e347, 20403068706909798396969007738022388896199442941604562282496460851345713958684nat);
    let e349: nat = lemma_square(3, e348, 17432720377050844746414211723552616511205706510218039522111306764746689458886nat);
    let e350: nat = lemma_triple(e349, 10353804148741220066924753619681366363544710025412751546552094800254057185564nat);
    let e351: nat = lemma_square(3, e350, 9173169574384384978527855113786824001937818918940430976967246506116945348109nat);
    let e352: nat = lemma_square(3, e351, 17863841353813972510312582704980762594150325189794733599654745612260223633947nat);
    let e353: nat = lemma_triple(e352, 8559822574702439146816717108444129303879694466560465927082771332147294044329nat);
    let e354: nat = lemma_square(3, e353, 3791224852268042218203745580075112822942772242383574118559276101796655924404nat);
    let e355: nat = lemma_square(3, e354, 20520580597909409563553876103978390537044495244382684920266698702736484699860nat);
    let e356: nat = lemma_triple(e355, 2711794849043810499446048604525008340564745461474921080607002591506596410491nat);
    let e357: nat = lemma_square(3, e356, 8135384547131431498338145813575025021694236384424763241821007774519789231473nat);
    let e358: nat = lemma_square(3, e357, 19382888966070477739597629223917750850378537100948731114884679476531352328807nat);
    let e359: nat = lemma_square(3, e358, 20818684810868523036523422214813601703475020692274229492534440539951457671882nat);
    let e360: nat = lemma_triple(e359, 14592161914559516814830937163504850059081558519237952668785816037672625870304nat);
    let e361: nat = lemma_square(3, e360, 21888242871839275222246405745257275088548364400416034343668410218372651402329nat);
}

/// The power of the norm to the leading 36 binary digits of the exponent of the
/// root.
proof fn lemma_norm_to_36_digits()
    ensures
        power_of(twist_constant_norm(), 51960323256nat) == 8880949563058803077163051331824516489919806922471097226913411989854673580853nat,
{
    lemma_power_to_zero(twist_constant_norm());
    let e0: nat = 0;
    let e1: nat = lemma_square(twist_constant_norm(), e0, 1nat);
    let e2: nat = lemma_norm_times(e1, 1nat);
    let e3: nat = lemma_square(twist_constant_norm(), e2, 21087453498479301738505683583845423561061080261299122796980902361914303298513nat);
    let e4: nat = lemma_norm_times(e3, 10055440545971374354776791693500851092948082267235719407205002685389515728482nat);
    let e5: nat = lemma_square(twist_constant_norm(), e4, 12314697140621852786918782518808697726363144012336952054851031899312257833132nat);
    let e6: nat = lemma_square(twist_constant_norm(), e5, 17734163788619091588147644801759364941616309873742272137455759201188820200792nat);
    let e7: nat = lemma_square(twist_constant_norm(), e6, 12966098901675894791084498551690640110595760698772348322027006391554576348984nat);
    let e8: nat = lemma_square(twist_constant_norm(), e7, 5935826997509751112504369252538677759982306625645283158873480377479542441978nat);
    let e9: nat = lemma_square(twist_constant_norm(), e8, 15204414710006645281405808502236199517449066397869953781298243813121719609993nat);
    let e10: nat = lemma_square(twist_constant_norm(), e9, 6518142262283465744300458602815175399528717267502049398324383413626932160649nat);
    let e11: nat = lemma_norm_times(e10, 11974409987026502976357110780881435592040177346114301189269469677244326819833nat);
    let e12: nat = lemma_square(twist_constant_norm(), e11, 12258385946690839157308739421749770719084272604441944888703363180190892877200nat);
    let e13: nat = lemma_norm_times(e12, 390174120767868393833496030171760583090768853669748322856839484590125950083nat);
    let e14: nat = lemma_square(twist_constant_norm(), e13, 11520805007024385976842645259970837488558028042034562834162685180866534884388nat);
    let e15: nat = lemma_square(twist_constant_norm(), e14, 5532175023790597957252595747285159901824566382441620496601897457314914774717nat);
    let e16: nat = lemma_square(twist_constant_norm(), e15, 15635310510907883810610633189376974872834344000446187214127845457217228992024nat);
    let e17: nat = lemma_norm_times(e16, 10639527935149238855298186604653965140736306792508681271470426601011612193898nat);
    let e18: nat = lemma_square(twist_constant_norm(), e17, 12378804293092594012585764887105990731608193045598618600928944280295170859824nat);
    let e19: nat = lemma_square(twist_constant_norm(), e18, 16707854897787019489936299904577797263872131464003794084044688335894998887985nat);
    let e20: nat = lemma_square(twist_constant_norm(), e19, 15236238025042341989571743412639406523822953002963478771816405798648770617226nat);
    let e21: nat = lemma_square(twist_constant_norm(), e20, 9403783751050812791003506791187185799552823799452092489479974684104137726043nat);
    let e22: nat = lemma_norm_times(e21, 9464015638530894244044551213953991752933909901411468108800899424171454417745nat);
    let e23: nat = lemma_square(twist_constant_norm(), e22, 2907241961581133838440558550516912821918041063582780227049162927805605770973nat);
    let e24: nat = lemma_square(twist_constant_norm(), e23, 20671093866214144960846512712877816968732731943638225662447187884097592895905nat);
    let e25: nat = lemma_square(twist_constant_norm(), e24, 14855694344981876807815250400863042329178046563602059377744272521626965432154nat);
    let e26: nat = lemma_norm_times(e25, 21687713895982454255080282547292297821029018479643477314437957769791501951506nat);
    let e27: nat = lemma_square(twist_constant_norm(), e26, 778780095522029719051757420171793047037601211865906754314724299515270247708nat);
    let e28: nat = lemma_norm_times(e27, 1119381610812324838606165413565597651673373514214848490248166654192957010754nat);
    let e29: nat = lemma_square(twist_constant_norm(), e28, 7063033526404049747876366318277799160623956728264354288318883965225762128292nat);
    let e30: nat = lemma_norm_times(e29, 14210359350157626485141343922886194501418212222823576364852276966105414074415nat);
    let e31: nat = lemma_square(twist_constant_norm(), e30, 12503795023132060030224082083677122306698934968958816554316110321651256112459nat);
    let e32: nat = lemma_square(twist_constant_norm(), e31, 16724550105528886234832588458788101283762772380890166169733780849309706790559nat);
    let e33: nat = lemma_square(twist_constant_norm(), e32, 14644174187866659807444040548566953473809210387888112646074301318360239648431nat);
    let e34: nat = lemma_norm_times(e33, 21640825831767479608294665014998614154205242974770066690901267895725607378113nat);
    let e35: nat = lemma_square(twist_constant_norm(), e34, 6913019040331402381132205887858063462142493615207239054680793356957308682304nat);
    let e36: nat = lemma_norm_times(e35, 14714730800442686539826037060415479049271993429677583547408255353413858669678nat);
    let e37: nat = lemma_square(twist_constant_norm(), e36, 16563099732036385259807720186318862395249284947265565573625127076595821898875nat);
    let e38: nat = lemma_norm_times(e37, 9927087075899964549368519401218890351186953487916376244092264959275036268085nat);
    let e39: nat = lemma_square(twist_constant_norm(), e38, 19507713924878166722918520378460024320496683551765819742955780480048730912256nat);
    let e40: nat = lemma_square(twist_constant_norm(), e39, 19180576798062555063041223520250201245036224779946204634916992633579313876071nat);
    let e41: nat = lemma_square(twist_constant_norm(), e40, 3491678905363275507224655213569335102655836884311225668713293348442624936292nat);
    let e42: nat = lemma_norm_times(e41, 15188163769438227732356083659010321376460213506380109623967064081151494640149nat);
    let e43: nat = lemma_square(twist_constant_norm(), e42, 12611115020370174801259846201056599646642569256178436058365294273302655198942nat);
    let e44: nat = lemma_square(twist_constant_norm(), e43, 19241772403291720854114013729182993450328108918200758865232056292818783644504nat);
    let e45: nat = lemma_norm_times(e44, 11190514163141920664740320240107434834828364969547618643712786709219680450670nat);
    let e46: nat = lemma_square(twist_constant_norm(), e45, 14040857138006859715249882413820928265498514881417367117103523162511560756927nat);
    let e47: nat = lemma_norm_times(e46, 14709170643085417961279558420244443647990587138928985214827152504560428807505nat);
    let e48: nat = lemma_square(twist_constant_norm(), e47, 13092402186303141417172091132051985629827520292855698590598451244034007149227nat);
    let e49: nat = lemma_norm_times(e48, 2364871370783101724533143868432325333072525899388159450857037450445808027087nat);
    let e50: nat = lemma_square(twist_constant_norm(), e49, 5331225084170660301749756146046087252230276159550635178643964110393555734230nat);
    let e51: nat = lemma_square(twist_constant_norm(), e50, 14953246670879852761164479034406073616991706700127515784897379767365132718762nat);
    let e52: nat = lemma_square(twist_constant_norm(), e51, 12520976286175275107579998505861162591012190140076470973443417318544306825313nat);
}

/// The power of the norm to the leading 72 binary digits of the exponent of the
/// root.
proof fn lemma_norm_to_72_digits()
    ensures
        power_of(twist_constant_norm(), 3570686225206241961697nat) == 12169882457838855487041536641418066811400471799717697322264549903813920374552nat,
{
    lemma_norm_to_36_digits();
    let e52: nat = 51960323256nat;
    let e53: nat = lemma_square(twist_constant_norm(), e52, 8880949563058803077163051331824516489919806922471097226913411989854673580853nat);
    let e54: nat = lemma_square(twist_constant_norm(), e53, 1919151721870058195701943162242923932159652438801448449508381750831516893478nat);
    let e55: nat = lemma_norm_times(e54, 8137329761293301294086564854383005947201439144939062963411015012881022994254nat);
    let e56: nat = lemma_square(twist_constant_norm(), e55, 12104172786205966719282050304759178137195829523304392201263886910866203752546nat);
    let e57: nat = lemma_square(twist_constant_norm(), e56, 15186293641667705216720544908822379790623755117543253604257928224076238151726nat);
    let e58: nat = lemma_square(twist_constant_norm(), e57, 16233574144394219945814997464093668666831435636666806855974454373627419360425nat);
    let e59: nat = lemma_norm_times(e58, 500134864786604954469509267942043494242027012294548885777587867259220681135nat);
    let e60: nat = lemma_square(twist_constant_norm(), e59, 12066733451412766214528217584732387444384295673037231765768353610541075189225nat);
    let e61: nat = lemma_norm_times(e60, 16521248522631289693682327630159432291621527359275728217555243641613131489835nat);
    let e62: nat = lemma_square(twist_constant_norm(), e61, 9020412124918805344436511021870503878285294481469790156714648974755357207808nat);
    let e63: nat = lemma_square(twist_constant_norm(), e62, 8285641590863293861762833727018563194139714935548124551853937742470104669959nat);
    let e64: nat = lemma_square(twist_constant_norm(), e63, 2329318118861106657813580248192754987320900222530307291330351111524853482435nat);
    let e65: nat = lemma_square(twist_constant_norm(), e64, 14142591521792530981013676012614336514377389373889409426749650010919805067821nat);
    let e66: nat = lemma_norm_times(e65, 3518958118739912205479985417395425690900738646996413617220335088158731916391nat);
    let e67: nat = lemma_square(twist_constant_norm(), e66, 16135084786672883511729973264960220261599865928091942910410198189969474799438nat);
    let e68: nat = lemma_norm_times(e67, 19198216149561975648788073812549833552092336246728758593954390405647841981034nat);
    let e69: nat = lemma_square(twist_constant_norm(), e68, 12250453347267685844932391251618597016332815246315562518631377483504258216530nat);
    let e70: nat = lemma_square(twist_constant_norm(), e69, 5890052990086828507541378488969003787077590361223560863848268157769594756800nat);
    let e71: nat = lemma_norm_times(e70, 5028261691066815327860650562159488553134667571315974606198859131053078112231nat);
    let e72: nat = lemma_square(twist_constant_norm(), e71, 21105476296966165000777062163954214375705219112850929188815190854477562452085nat);
    let e73: nat = lemma_square(twist_constant_norm(), e72, 744393237972581012187496018272528892759690144666227878578013534159569093638nat);
    let e74: nat = lemma_square(twist_constant_norm(), e73, 296373537696127843173471537016966150927218565323077616835082433551214709028nat);
    let e75: nat = lemma_square(twist_constant_norm(), e74, 20462450798785512435734871546333331651052829886141671149294360424459086368310nat);
    let e76: nat = lemma_square(twist_constant_norm(), e75, 4517875522766285952410807585188593580016824051618518473847394099066136479970nat);
    let e77: nat = lemma_square(twist_constant_norm(), e76, 16916823919090105878778954680028481350429084092079066552354112557515829852429nat);
    let e78: nat = lemma_square(twist_constant_norm(), e77, 13650466582022459693481522602628603225647155351324856724430949292125251887030nat);
    let e79: nat = lemma_square(twist_constant_norm(), e78, 13667309925192678080087630231107521663417086991633972045328522442964612759511nat);
    let e80: nat = lemma_norm_times(e79, 6299712638332669322439192540014252093774428294210316933839533327573626254632nat);
    let e81: nat = lemma_square(twist_constant_norm(), e80, 1759151039418916155987053120014114258521403649720538378723316482033457818610nat);
    let e82: nat = lemma_square(twist_constant_norm(), e81, 3237586706740817560266435792219612393012004522948137632121025368916907904556nat);
    let e83: nat = lemma_norm_times(e82, 20866843809896251289394141702427311508253168310510364798359809243092768065413nat);
    let e84: nat = lemma_square(twist_constant_norm(), e83, 18039121021068091459964453832829573583016596013111766820535262426486625108477nat);
    let e85: nat = lemma_square(twist_constant_norm(), e84, 12134577831932574414575202634113858063770401633120398351476605178430657874711nat);
    let e86: nat = lemma_square(twist_constant_norm(), e85, 7965278634217436406752225128807020597565319756324796647146422008173416668201nat);
    let e87: nat = lemma_norm_times(e86, 13003923367288200910422676119491113425057708594673672096442913471059828676210nat);
    let e88: nat = lemma_square(twist_constant_norm(), e87, 7833574868655322116191680767824324670173546891795253863079550374524681549901nat);
    let e89: nat = lemma_norm_times(e88, 12822070937069319319089394655507698438165462532270599909986407506968286417742nat);
    let e90: nat = lemma_square(twist_constant_norm(), e89, 21693964593822058423933309616330758447370839155427682897002982287265265483073nat);
    let e91: nat = lemma_square(twist_constant_norm(), e90, 12949033926636800730283011885121036063450591726316097223191918182130583417993nat);
    let e92: nat = lemma_norm_times(e91, 6652217115166661163703068907317956396349313505499373861790143118521017590391nat);
    let e93: nat = lemma_square(twist_constant_norm(), e92, 19148276977968413912296702641324555959599869407354197530264084180453777642753nat);
    let e94: nat = lemma_norm_times(e93, 2066081843912412639948442408693481919871993803503915352765090461334868303316nat);
    let e95: nat = lemma_square(twist_constant_norm(), e94, 760624662669393465902790160594583993368787396904035189027608413918344721305nat);
    let e96: nat = lemma_norm_times(e95, 12834258368185846464878822164595977564014939872681962328532488665688730986083nat);
    let e97: nat = lemma_square(twist_constant_norm(), e96, 4344865815901276166202681252185290537216998555907484405443558717467025209380nat);
    let e98: nat = lemma_square(twist_constant_norm(), e97, 11593540354276906201916238511319637817803155992251626801514248859098280003448nat);
    let e99: nat = lemma_square(twist_constant_norm(), e98, 3526874658407496612606137911854492306032402360980361160602163347517669269273nat);
    let e100: nat = lemma_square(twist_constant_norm(), e99, 5359770499899127847487120499274934439116633049395253172589941025037928945733nat);
    let e101: nat = lemma_square(twist_constant_norm(), e100, 1229428321955213690970089308312131414673879089284666137956337790607058647249nat);
    let e102: nat = lemma_norm_times(e101, 3871963909095337795396016867217930514688999628416326585263936083150168615068nat);
}

/// The power of the norm to the leading 108 binary digits of the exponent of the
/// root.
proof fn lemma_norm_to_108_digits()
    ensures
        power_of(twist_constant_norm(), 245375688984616001288841466847328nat) == 13557867815835161947207485340536506261892006820327386249207674813047680459504nat,
{
    lemma_norm_to_72_digits();
    let e102: nat = 3570686225206241961697nat;
    let e103: nat = lemma_square(twist_constant_norm(), e102, 12169882457838855487041536641418066811400471799717697322264549903813920374552nat);
    let e104: nat = lemma_square(twist_constant_norm(), e103, 14970515086773837871803942147210391083098468802361205715973372902253925060992nat);
    let e105: nat = lemma_norm_times(e104, 10791158829731474687904535736847274912889984698287956031451066536851577286309nat);
    let e106: nat = lemma_square(twist_constant_norm(), e105, 7323780677071787832961075046006619527512500230517579860059847200103712175295nat);
    let e107: nat = lemma_square(twist_constant_norm(), e106, 10380859007920852949719170467130040076575197245617094478328315926759190164741nat);
    let e108: nat = lemma_square(twist_constant_norm(), e107, 13205139788393132253645421862017020291086422134280572417168130421775412243671nat);
    let e109: nat = lemma_square(twist_constant_norm(), e108, 18501491747212612872164264769520742860707476052097472103556460224292561960081nat);
    let e110: nat = lemma_square(twist_constant_norm(), e109, 2639166674711127922043997941846133955643570540013379820453685591313400783306nat);
    let e111: nat = lemma_square(twist_constant_norm(), e110, 16909452163507685765615929098488709880384029135999449519716253614814650225332nat);
    let e112: nat = lemma_norm_times(e111, 1573198534782149953753179182668980163703713016450800079314412502873001324784nat);
    let e113: nat = lemma_square(twist_constant_norm(), e112, 20459332256985661786274456698580167417246988598813314622904836494132856143602nat);
    let e114: nat = lemma_square(twist_constant_norm(), e113, 18306212700838225734992312024148436559917117850743311975955299304566302273934nat);
    let e115: nat = lemma_square(twist_constant_norm(), e114, 21053169758945467358302565177510541570900351288730049336654197757151380523469nat);
    let e116: nat = lemma_square(twist_constant_norm(), e115, 15549144391481558016050708504049409051401237174133458354657629840066466575493nat);
    let e117: nat = lemma_norm_times(e116, 20416029061146264291559233177511251435438498702175345045721153170614558071755nat);
    let e118: nat = lemma_square(twist_constant_norm(), e117, 10515607202162608664800874106104595008152830904826959011644518942311378476974nat);
    let e119: nat = lemma_square(twist_constant_norm(), e118, 10884930035865241892649217638734474615462374832864107865599419820362620267559nat);
    let e120: nat = lemma_norm_times(e119, 19565712121566957157422231099611355172607770200652718350681631696229614042085nat);
    let e121: nat = lemma_square(twist_constant_norm(), e120, 11489998897664356673114930255859839325095619784284125528661597702178651752185nat);
    let e122: nat = lemma_norm_times(e121, 19298329264559509707164424556805633173460556230617101055598378713980991440496nat);
    let e123: nat = lemma_square(twist_constant_norm(), e122, 2651968891764806558646007713436161569982166199879872644216627856281943602215nat);
    let e124: nat = lemma_square(twist_constant_norm(), e123, 52792886136897094616248415826766791271896238200151553959920482560365578141nat);
    let e125: nat = lemma_norm_times(e124, 1848498642738107580770842797304219398123966486065986984911456871073194036874nat);
    let e126: nat = lemma_square(twist_constant_norm(), e125, 736743579613677056968663373978689326347662447429140612068063263767673155476nat);
    let e127: nat = lemma_norm_times(e126, 14629686443974224165374065661894843729594669850876153761461378219899900689319nat);
    let e128: nat = lemma_square(twist_constant_norm(), e127, 21625431626630654379961549046967673478275309334819782421400368854603549656678nat);
    let e129: nat = lemma_square(twist_constant_norm(), e128, 2567321670869750827287634692739816544027967365362950775054911980157925091581nat);
    let e130: nat = lemma_norm_times(e129, 7805633029293886644600362342295701985782729969859915238364172558170883552270nat);
    let e131: nat = lemma_square(twist_constant_norm(), e130, 20075660780927717021989566765112013710465597232368079766571808310219441938883nat);
    let e132: nat = lemma_norm_times(e131, 4878151685729519379894090201347999658290917139030988824160434112043195267946nat);
    let e133: nat = lemma_square(twist_constant_norm(), e132, 10678738954895830888590368660145225003598513149129221934141796914693992113874nat);
    let e134: nat = lemma_square(twist_constant_norm(), e133, 11945932136315037363549828178497095086539442854803484698286120360446674486717nat);
    let e135: nat = lemma_norm_times(e134, 16275296683726912140991321971327653709960458925818768618772071586390259498357nat);
    let e136: nat = lemma_square(twist_constant_norm(), e135, 12196574904332609060201606363499787949375612993499805370900257587422879970975nat);
    let e137: nat = lemma_square(twist_constant_norm(), e136, 16952501529697739381069784686295412330925806819581572093790918072285942717035nat);
    let e138: nat = lemma_square(twist_constant_norm(), e137, 178060176248285230362416365450419416680087970833365434086357323291614722741nat);
    let e139: nat = lemma_square(twist_constant_norm(), e138, 9159040583693424343650775363362695801698800534983242307908644346637979450812nat);
    let e140: nat = lemma_square(twist_constant_norm(), e139, 10525522655098148738924828870748894795379017242084532087267476413638188078237nat);
    let e141: nat = lemma_square(twist_constant_norm(), e140, 12988077867997423200382898233217333241369030037380605077766105764797485738626nat);
    let e142: nat = lemma_square(twist_constant_norm(), e141, 21402957746810632116066535032842447375553889398313107044788729316644777030609nat);
    let e143: nat = lemma_norm_times(e142, 16597179022885486635679335378896409352427660325000984540682995552278922203649nat);
    let e144: nat = lemma_square(twist_constant_norm(), e143, 1554711808952806152425214788595248891257958923996476063456803927754452117369nat);
    let e145: nat = lemma_norm_times(e144, 18376130617899169871458460540625316469979628761934729635422976615420960312389nat);
    let e146: nat = lemma_square(twist_constant_norm(), e145, 4953120087211275076680934244676315539091171726679129597663246419266904037877nat);
    let e147: nat = lemma_square(twist_constant_norm(), e146, 6683791639679058333935268896233011364780954956109915041609122643785083290966nat);
    let e148: nat = lemma_square(twist_constant_norm(), e147, 2484489182942789810585234919468627556004247125940213322216732117570021341961nat);
    let e149: nat = lemma_square(twist_constant_norm(), e148, 13632490768133291208175893405114041423179399101027318404683019326922469800159nat);
    let e150: nat = lemma_square(twist_constant_norm(), e149, 16369325037477206814333816601057696980548971812821241230823768286045322065349nat);
}

/// The power of the norm to the leading 144 binary digits of the exponent of the
/// root.
proof fn lemma_norm_to_144_digits()
    ensures
        power_of(twist_constant_norm(), 16862088950758290762461887197407094869745157nat) == 13374302887642541001805622552341148309065043078604254557425485293989971303897nat,
{
    lemma_norm_to_108_digits();
    let e150: nat = 245375688984616001288841466847328nat;
    let e151: nat = lemma_square(twist_constant_norm(), e150, 13557867815835161947207485340536506261892006820327386249207674813047680459504nat);
    let e152: nat = lemma_square(twist_constant_norm(), e151, 9250203787050571031216886498606067885061098171150185861567738723736534854427nat);
    let e153: nat = lemma_norm_times(e152, 12291541013111544595477107674355416341663699756462017570663187908686768473308nat);
    let e154: nat = lemma_square(twist_constant_norm(), e153, 10424684472689503157508192248877391464520096062881514178870682678001446431117nat);
    let e155: nat = lemma_square(twist_constant_norm(), e154, 18225687010283650370306535933860016226434851717344934129412797482810332738407nat);
    let e156: nat = lemma_norm_times(e155, 6780667480560977856730675846452393869849864100552524805846640693409382892103nat);
    let e157: nat = lemma_square(twist_constant_norm(), e156, 15425358113124499243099126812283191154962754762882353959762400615197218140256nat);
    let e158: nat = lemma_square(twist_constant_norm(), e157, 2879253160535010892369969697513566297109740549618055214191219706326103500574nat);
    let e159: nat = lemma_norm_times(e158, 14283088387390689048163404338391807446350818770100181730680589042468800124361nat);
    let e160: nat = lemma_square(twist_constant_norm(), e159, 18918092465317915742432768444966453021736799928722685044523326396758035422892nat);
    let e161: nat = lemma_norm_times(e160, 2769355467102737723145406429899289161575186255870265349275865304416774165162nat);
    let e162: nat = lemma_square(twist_constant_norm(), e161, 15785881533787836614617075501146531190226374675928123909505451044258220580296nat);
    let e163: nat = lemma_square(twist_constant_norm(), e162, 11504246227093545981846952937206185902836516941067911202137429104014902248711nat);
    let e164: nat = lemma_square(twist_constant_norm(), e163, 5847132586713152012292638451427807222039097335314151336704473915926840082007nat);
    let e165: nat = lemma_square(twist_constant_norm(), e164, 16599762332187290220012262725623057415883850323800947927326541610398028767737nat);
    let e166: nat = lemma_square(twist_constant_norm(), e165, 11679541988698792058339395367831577225185623629819603727984120846292234933757nat);
    let e167: nat = lemma_norm_times(e166, 3229113271556834840910064124866775249783382471677448870199635292062481645807nat);
    let e168: nat = lemma_square(twist_constant_norm(), e167, 11832395889428053025912024684998339098316973439132968991797870086564720265626nat);
    let e169: nat = lemma_square(twist_constant_norm(), e168, 20829765346972117995955803630644141699005819971844193290943559919450590303941nat);
    let e170: nat = lemma_norm_times(e169, 4704340921098288556492214108409820979170371750572753844352720465628599240967nat);
    let e171: nat = lemma_square(twist_constant_norm(), e170, 11460451537015791233177226372332154481086367112248360424017378510623313020983nat);
    let e172: nat = lemma_norm_times(e171, 15845663210498245636402149854493669271249418815368206675527269489533427735574nat);
    let e173: nat = lemma_square(twist_constant_norm(), e172, 8145473144129595317823574226544117384999466306261727170540028474113247300319nat);
    let e174: nat = lemma_norm_times(e173, 8133516609280530993754253742571400469305540857741050875045326764050765418735nat);
    let e175: nat = lemma_square(twist_constant_norm(), e174, 1693492415841982983055213425840419871827302453555645473944817738541372773102nat);
    let e176: nat = lemma_square(twist_constant_norm(), e175, 4657926511431484230126853978605037490520741187716288791131721829566889030029nat);
    let e177: nat = lemma_norm_times(e176, 3419974550330067851589323061428481013577023123223042549776669589551614017697nat);
    let e178: nat = lemma_square(twist_constant_norm(), e177, 8650186585121806616511493727510144595997303097380974591357929280975201690553nat);
    let e179: nat = lemma_norm_times(e178, 9912787958927134783974413193348035202852443987449293273863054178426404934887nat);
    let e180: nat = lemma_square(twist_constant_norm(), e179, 1354918713441262052170928347382799901394735451760261745456786896347352080763nat);
    let e181: nat = lemma_square(twist_constant_norm(), e180, 3752229014849167559613392349343939825925490415471373805149669140225014230191nat);
    let e182: nat = lemma_square(twist_constant_norm(), e181, 10247632760730506807768669715562454754507718929272971483526916722306099889077nat);
    let e183: nat = lemma_norm_times(e182, 6555442762852219629693734815288802107831926342197993032140500565667515522204nat);
    let e184: nat = lemma_square(twist_constant_norm(), e183, 15133708535914522422787189311969415533659611458217858720420396968315242133699nat);
    let e185: nat = lemma_square(twist_constant_norm(), e184, 6954958073654520829011695672838771967032266987180588051399552589743229215142nat);
    let e186: nat = lemma_norm_times(e185, 3347617226220639660978392272619355994076559168863392668093002059753431378981nat);
    let e187: nat = lemma_square(twist_constant_norm(), e186, 15582419496717371275815251926015108341492424005923737594952587543079985076830nat);
    let e188: nat = lemma_norm_times(e187, 10200772510924301865979420686596083988922734165796967022028791329500650290858nat);
    let e189: nat = lemma_square(twist_constant_norm(), e188, 51877818426361169571087356077264092018528815402212299359792321791767655895nat);
    let e190: nat = lemma_norm_times(e189, 2402502963883670661068463558981538399185165413563761790095128329927872112763nat);
    let e191: nat = lemma_square(twist_constant_norm(), e190, 4801495798734398960095183776831799050006143638977278760689875599735606031229nat);
    let e192: nat = lemma_norm_times(e191, 6178300355277265275223070866735585181780446875808667870859542485399464617878nat);
    let e193: nat = lemma_square(twist_constant_norm(), e192, 15092314857034344505833092049323330749092985663126347422231023520480943863712nat);
    let e194: nat = lemma_square(twist_constant_norm(), e193, 11467849474092254464107697162243011200764211985661328278871769868762799421284nat);
    let e195: nat = lemma_square(twist_constant_norm(), e194, 7219417015705210297290617333435061974491192331302803604278257848252451871415nat);
    let e196: nat = lemma_square(twist_constant_norm(), e195, 6177312106504634193762390763329820148220303624146363030808584792209435631948nat);
    let e197: nat = lemma_square(twist_constant_norm(), e196, 4178512358115513388756899520599624987978465653473307830855500297407856935966nat);
    let e198: nat = lemma_square(twist_constant_norm(), e197, 12881503960147154320092153994075069938898440767954259269022774320880358666219nat);
    let e199: nat = lemma_square(twist_constant_norm(), e198, 15592172595568293951614472959691031405706813487057210175862303242613797256241nat);
    let e200: nat = lemma_norm_times(e199, 3928747327696623501314436105939713603629794036139883511232524225170041330141nat);
    let e201: nat = lemma_square(twist_constant_norm(), e200, 1765852930591048629549536020484680461904264659899366706274852530484835402612nat);
    let e202: nat = lemma_square(twist_constant_norm(), e201, 7888994708513692587887904580091018253109882251423246149588936049960627749529nat);
    let e203: nat = lemma_norm_times(e202, 14845572269528916929913244055628228604521760169382736950063569638087521526878nat);
}

/// The power of the norm to the leading 180 binary digits of the exponent of the
/// root.
proof fn lemma_norm_to_180_digits()
    ensures
        power_of(twist_constant_norm(), 1158753929371997011610123359348873095422797312417209458nat) == 15492122189244475517288933765924690121602201760685948162052758433874240587022nat,
{
    lemma_norm_to_144_digits();
    let e203: nat = 16862088950758290762461887197407094869745157nat;
    let e204: nat = lemma_square(twist_constant_norm(), e203, 13374302887642541001805622552341148309065043078604254557425485293989971303897nat);
    let e205: nat = lemma_norm_times(e204, 4135509395457953299308853312348157027910201596989193407468256859430110180732nat);
    let e206: nat = lemma_square(twist_constant_norm(), e205, 12198808181951825481373433324420164843339384210902524168604048525600743229320nat);
    let e207: nat = lemma_square(twist_constant_norm(), e206, 6394391412174859653825720575878356800322598385707064996308628370536903987327nat);
    let e208: nat = lemma_norm_times(e207, 20824488388788667669167827402020785479795664020471714040214016982959487924675nat);
    let e209: nat = lemma_square(twist_constant_norm(), e208, 20169910584296700596500239409151518295863583216136580631245020631559335942648nat);
    let e210: nat = lemma_square(twist_constant_norm(), e209, 17094441594984675736068271995969642135594980551229492127903277879978845745164nat);
    let e211: nat = lemma_norm_times(e210, 18844910573426717000544621063363461566914678448656437121248454880849292998736nat);
    let e212: nat = lemma_square(twist_constant_norm(), e211, 2068343843424883573230507189881355537832098854120828464527269438141995573032nat);
    let e213: nat = lemma_square(twist_constant_norm(), e212, 9933200589851626917568602106737410120323586005717448875143176396770928042610nat);
    let e214: nat = lemma_norm_times(e213, 9318034522906462062409758331336700579791589351068826526203817209852963771234nat);
    let e215: nat = lemma_square(twist_constant_norm(), e214, 16504638991132147822585114124475027565396467698571868428924372594854875537060nat);
    let e216: nat = lemma_square(twist_constant_norm(), e215, 8994220909265817262865186702049504898815375138900699146993748624940895670676nat);
    let e217: nat = lemma_square(twist_constant_norm(), e216, 14945066579232917849481330642648868585745986604525645420205785473138678137028nat);
    let e218: nat = lemma_norm_times(e217, 2802295972122655865072199244419966300145889584195886009013232878236436697949nat);
    let e219: nat = lemma_square(twist_constant_norm(), e218, 18191865075150431008245841196731916190780071387764843408308349205431196173861nat);
    let e220: nat = lemma_square(twist_constant_norm(), e219, 15261725650455608593178693817661490507916146872057495638229845066858546050971nat);
    let e221: nat = lemma_square(twist_constant_norm(), e220, 14152362317410501103516116024897001715790132826618878216465289196712815368940nat);
    let e222: nat = lemma_square(twist_constant_norm(), e221, 20872974769853919773927038848009079243835183229222992556800924728757501978205nat);
    let e223: nat = lemma_norm_times(e222, 16326584690648438072267093039989326601877205408903082676071296123029954120871nat);
    let e224: nat = lemma_square(twist_constant_norm(), e223, 18608519062703783922584480479403808170789785994998666278464037225242912661324nat);
    let e225: nat = lemma_square(twist_constant_norm(), e224, 5945023705990641358340664514735239637336738766206860874452684759916449979255nat);
    let e226: nat = lemma_norm_times(e225, 3684654139724179610276106413383738139551617078688435856298913362745136478101nat);
    let e227: nat = lemma_square(twist_constant_norm(), e226, 17220990099797462871878152678922706998095514105097058700684141556431164383459nat);
    let e228: nat = lemma_norm_times(e227, 8910268926708579819757356880941835225872724810376293273535791215670327199076nat);
    let e229: nat = lemma_square(twist_constant_norm(), e228, 19129182141773755286470387836658185647124435146215105469813130460694003987504nat);
    let e230: nat = lemma_square(twist_constant_norm(), e229, 4817333177884358469258660004530215761924159065581849823229248774424826816892nat);
    let e231: nat = lemma_norm_times(e230, 9722296211672989923485225581887186537886224557182106629784877739615353387542nat);
    let e232: nat = lemma_square(twist_constant_norm(), e231, 9074975025124819097301941495057352823193479947970410604252866298730426423724nat);
    let e233: nat = lemma_square(twist_constant_norm(), e232, 3041462886910440743174370455825515067487451917297467656370650442067006765646nat);
    let e234: nat = lemma_square(twist_constant_norm(), e233, 15226827800656682213511391697933210628886891845816071290152904515592842675323nat);
    let e235: nat = lemma_square(twist_constant_norm(), e234, 13048811507248540842077430224019495778177143834737634531999290669557353201803nat);
    let e236: nat = lemma_square(twist_constant_norm(), e235, 1304195197939935362638139374111855961942191792462867693107825577606694257684nat);
    let e237: nat = lemma_norm_times(e236, 4495694805622711092877033438726861348345932280635955965169867146208114311156nat);
    let e238: nat = lemma_square(twist_constant_norm(), e237, 4230446993370173816431011968074921992400753008876745548343601644401295069763nat);
    let e239: nat = lemma_norm_times(e238, 12692738814164571616559539204817767597723063408318426062013421600914359885741nat);
    let e240: nat = lemma_square(twist_constant_norm(), e239, 15006524826722977815653689583554645584183163898744571236039777158965070434261nat);
    let e241: nat = lemma_norm_times(e240, 7585649394687510963320312293047210739912426807778393941536656295481610956300nat);
    let e242: nat = lemma_square(twist_constant_norm(), e241, 3501869186226589645028620342560946921294816498085168074399027873241301959665nat);
    let e243: nat = lemma_square(twist_constant_norm(), e242, 13461775763537662131093753122082163171100097518643272786127411294908765840104nat);
    let e244: nat = lemma_square(twist_constant_norm(), e243, 2094255395810280023309108259980299422129157638435497041040869322719351367238nat);
    let e245: nat = lemma_square(twist_constant_norm(), e244, 7028012740660664066997715613429834637059809688689163596759218237147398403646nat);
    let e246: nat = lemma_norm_times(e245, 20368491127459650759564894099623995129381414808523112733642578314987250622678nat);
    let e247: nat = lemma_square(twist_constant_norm(), e246, 18251353566554797197205712092829908066905017106275334565416164372117058879501nat);
    let e248: nat = lemma_norm_times(e247, 16257640218044950733971207480723221814077114388678278614556957516946692649571nat);
    let e249: nat = lemma_square(twist_constant_norm(), e248, 2585164519242955881371708348320497824302231255731682664866825991907998932584nat);
    let e250: nat = lemma_norm_times(e249, 6152754890047304962627907530956017749758432592450790061405871659477430638333nat);
    let e251: nat = lemma_square(twist_constant_norm(), e250, 20695036699980138857708921935035363309756697928407242503101593744313278553521nat);
    let e252: nat = lemma_square(twist_constant_norm(), e251, 16139724721768124022449552433986127085614677422303595143234587958160778641491nat);
    let e253: nat = lemma_square(twist_constant_norm(), e252, 8728530808875246376111784662410971096968031533688930306409841708142770771083nat);
    let e254: nat = lemma_norm_times(e253, 11506727772417732226623331076986325474093221698613360326600934659020524175945nat);
    let e255: nat = lemma_square(twist_constant_norm(), e254, 14876352883116617394807032593914609253540864198898893289470113958025503100259nat);
}

/// The power of the norm to the leading 216 binary digits of the exponent of the
/// root.
proof fn lemma_norm_to_216_digits()
    ensures
        power_of(twist_constant_norm(), 79628963692227535729203394094865052788723227994697749318908019248nat) == 7517317095020521654214370195543508171288616993477760372272952403809805927059nat,
{
    lemma_norm_to_180_digits();
    let e255: nat = 1158753929371997011610123359348873095422797312417209458nat;
    let e256: nat = lemma_square(twist_constant_norm(), e255, 15492122189244475517288933765924690121602201760685948162052758433874240587022nat);
    let e257: nat = lemma_norm_times(e256, 3240752082238233114789096007822663152796118270088911599579525432757897736885nat);
    let e258: nat = lemma_square(twist_constant_norm(), e257, 2758060421788994817479506289972188343578437376176592894639232560324733115966nat);
    let e259: nat = lemma_square(twist_constant_norm(), e258, 20967470468492580019903567070422107535793282423563172371251040965837649435755nat);
    let e260: nat = lemma_norm_times(e259, 13382578612751036045761067418916075134103344925360359630468754413592754722357nat);
    let e261: nat = lemma_square(twist_constant_norm(), e260, 15082238950958077570078247558272752508907828943297954188675118565234650355353nat);
    let e262: nat = lemma_square(twist_constant_norm(), e261, 2174492085228303621696806225183278967282006904530487956208393526663456938881nat);
    let e263: nat = lemma_square(twist_constant_norm(), e262, 5253096773115434411265681938789417551143356494613639252311242030136767447690nat);
    let e264: nat = lemma_square(twist_constant_norm(), e263, 4386766588675194495891882178906620283460538838917323408820227668360726171189nat);
    let e265: nat = lemma_norm_times(e264, 3021426455541572450144892103461718385869863524743758975026288229619078321146nat);
    let e266: nat = lemma_square(twist_constant_norm(), e265, 21686003266427026461353859616484603324006508101299021021833653971197436604597nat);
    let e267: nat = lemma_norm_times(e266, 14737859489043487820008833367966750929273593353234541670435233479945513911981nat);
    let e268: nat = lemma_square(twist_constant_norm(), e267, 15764848873278938745843158595248004122736180872145067428737025728484227003204nat);
    let e269: nat = lemma_square(twist_constant_norm(), e268, 698255152845899302558177006560860166122801625468112989395696930781048236494nat);
    let e270: nat = lemma_norm_times(e269, 5519235553029049901644799899750398879126630836681617741026717128498879505872nat);
    let e271: nat = lemma_square(twist_constant_norm(), e270, 13418399729579837314422325303293936514262958696102806042418466745115375287376nat);
    let e272: nat = lemma_square(twist_constant_norm(), e271, 8172586412806977358903135151906157548081297431225193980501605459773413027423nat);
    let e273: nat = lemma_square(twist_constant_norm(), e272, 10856972170736069089669128365211570289472347152186782558859862306738856545027nat);
    let e274: nat = lemma_norm_times(e273, 17529975130878820927483634909576913368867242519168519495332038072475956295489nat);
    let e275: nat = lemma_square(twist_constant_norm(), e274, 8597266438705991084189181192897854848014792214694661792990418170956271486268nat);
    let e276: nat = lemma_norm_times(e275, 5850242204443581967547340952243219055816043409487423564495165247815516420531nat);
    let e277: nat = lemma_square(twist_constant_norm(), e276, 5713765785426078865007411923537526807165540276512749532579856185714621289608nat);
    let e278: nat = lemma_norm_times(e277, 7815718235828327040892087285816956562055335913635900352825418367675744033484nat);
    let e279: nat = lemma_square(twist_constant_norm(), e278, 4060980226640563976036410420919998903937240940369475452776795366400297692736nat);
    let e280: nat = lemma_norm_times(e279, 6057504527532892147881965848838612059572876851087676522491993742067772281984nat);
    let e281: nat = lemma_square(twist_constant_norm(), e280, 17214495107339403574514815229823153219943014431856757997428637721300170432561nat);
    let e282: nat = lemma_square(twist_constant_norm(), e281, 1461878121787203867387643411812676315934635890268187102094470237951071254485nat);
    let e283: nat = lemma_square(twist_constant_norm(), e282, 5037936239100961603586347110117783929814713806521912925918259919157678264240nat);
    let e284: nat = lemma_square(twist_constant_norm(), e283, 18299070082496966075460461537122243203376497527314705748418759733671336220339nat);
    let e285: nat = lemma_square(twist_constant_norm(), e284, 15817559695540220993592949721299566718039854268665204549032803895179090019655nat);
    let e286: nat = lemma_norm_times(e285, 16253518586088981644931309509305809202893554950283234950376224878714738215635nat);
    let e287: nat = lemma_square(twist_constant_norm(), e286, 3652431309483850748293983241470161078620928934800413173075723038670112529278nat);
    let e288: nat = lemma_square(twist_constant_norm(), e287, 6537459828433037940247703122481023628149860484685203933159117619392834680351nat);
    let e289: nat = lemma_square(twist_constant_norm(), e288, 5197663535791144636830896917559878197009030853409375061267711551118443179041nat);
    let e290: nat = lemma_square(twist_constant_norm(), e289, 6323782742072427331431603923329198641252195155507500994316839868632987912899nat);
    let e291: nat = lemma_square(twist_constant_norm(), e290, 558962368237261863307662469746377065179341371791912245420534116609610637418nat);
    let e292: nat = lemma_square(twist_constant_norm(), e291, 12368391968129029521726707420471954728416604405547948008016070946272485162166nat);
    let e293: nat = lemma_norm_times(e292, 21699137977591325138129226566548814668665773290027736719475532966765251051355nat);
    let e294: nat = lemma_square(twist_constant_norm(), e293, 12258014976297257432515610386261689149997017956466696414570417058570251575363nat);
    let e295: nat = lemma_square(twist_constant_norm(), e294, 11090151117989618893104787266056469099507377732717131706237550375371962532845nat);
    let e296: nat = lemma_square(twist_constant_norm(), e295, 360288428321322445733733448758032298681326852313322008042570315315800991319nat);
    let e297: nat = lemma_square(twist_constant_norm(), e296, 1570374870920603372611001008015030954598175490340562249963559381018077289455nat);
    let e298: nat = lemma_norm_times(e297, 683644549615174380328602709660531982595783137026972201120453649702775591238nat);
    let e299: nat = lemma_square(twist_constant_norm(), e298, 10752225802684238759912361636551655992575786518599459711190799983330902788591nat);
    let e300: nat = lemma_norm_times(e299, 8072992199468270226634675943104892418257773215503571687840266215182810843811nat);
    let e301: nat = lemma_square(twist_constant_norm(), e300, 1152989910573825698316566941868308620158735001180853278698188217454762485401nat);
    let e302: nat = lemma_square(twist_constant_norm(), e301, 17811583146526899906322638719270572065914532765484389215324771093471237992558nat);
    let e303: nat = lemma_square(twist_constant_norm(), e302, 9020189552871052226809477742414053807265892988680445838057730667760290315467nat);
    let e304: nat = lemma_square(twist_constant_norm(), e303, 8931299769509912930091805016144596305122799384985302084152638703279431062026nat);
}

/// The power of the norm to the leading 252 binary digits of the exponent of the
/// root.
proof fn lemma_norm_to_252_digits()
    ensures
        power_of(twist_constant_norm(), 5472060717959818805561601436314318772174077789324455915672259473661306552146nat) == 13423547325255664688601927060176767110617459601565462561454799232085773828921nat,
{
    lemma_norm_to_216_digits();
    let e304: nat = 79628963692227535729203394094865052788723227994697749318908019248nat;
    let e305: nat = lemma_square(twist_constant_norm(), e304, 7517317095020521654214370195543508171288616993477760372272952403809805927059nat);
    let e306: nat = lemma_square(twist_constant_norm(), e305, 12123058972547635456577343063524175718364307442921627025444305110145110719449nat);
    let e307: nat = lemma_norm_times(e306, 15088042367435970834132578439456305299890672744232316323782671999042904614453nat);
    let e308: nat = lemma_square(twist_constant_norm(), e307, 12066266503764091111887841829513908245831368168691536216572152754665243459327nat);
    let e309: nat = lemma_square(twist_constant_norm(), e308, 9455862359167343737799068827884985224213656307193337655775975658561858715833nat);
    let e310: nat = lemma_norm_times(e309, 9733227958648308227854731166333763390043752425151195286621098314260700026310nat);
    let e311: nat = lemma_square(twist_constant_norm(), e310, 10143894015492318678135004583362819799098394526518131245256306990808341357666nat);
    let e312: nat = lemma_norm_times(e311, 19516313986824119240278796112084887289696167683182358686479104242993104025381nat);
    let e313: nat = lemma_square(twist_constant_norm(), e312, 16289313391328032438311813042773165430587439030310071735375987153696767381504nat);
    let e314: nat = lemma_square(twist_constant_norm(), e313, 12930939841297674843174974372538530797371076825052917507033545944284005175623nat);
    let e315: nat = lemma_norm_times(e314, 16478070096993154993990896901123787736705595662000033739945958534194616559400nat);
    let e316: nat = lemma_square(twist_constant_norm(), e315, 9282602820541928063034358938747777952607891138565114222131788876314852230182nat);
    let e317: nat = lemma_norm_times(e316, 17289721610280062317259030552338439478322169722332809306694621692095432793747nat);
    let e318: nat = lemma_square(twist_constant_norm(), e317, 3766160909699944968427513599851791230802118361000976212183839762089944861022nat);
    let e319: nat = lemma_square(twist_constant_norm(), e318, 5365950274555178558969377264913481009300914505429546870662603699315402776704nat);
    let e320: nat = lemma_norm_times(e319, 20612313698384206429884307375923573214350513627116111385196773626720034845879nat);
    let e321: nat = lemma_square(twist_constant_norm(), e320, 17477325207076787140695169437353376085181028763536840868781050276039734237831nat);
    let e322: nat = lemma_norm_times(e321, 1208019284265838172823806387903348337734717046161933061562680025490147439102nat);
    let e323: nat = lemma_square(twist_constant_norm(), e322, 2801885393619332875339979450532962023494823963273605294889689014339799866314nat);
    let e324: nat = lemma_square(twist_constant_norm(), e323, 4897129551753412611061486396905513151539799100338914621262309828881448958965nat);
    let e325: nat = lemma_square(twist_constant_norm(), e324, 12874669620307172929366689388808123691133529763478657975062291524529191031226nat);
    let e326: nat = lemma_square(twist_constant_norm(), e325, 6284692750900193554107208045940137848628817879994995077849238449930517921893nat);
    let e327: nat = lemma_square(twist_constant_norm(), e326, 14053800587609815940365608251650470607331878265982964052348716574047451998791nat);
    let e328: nat = lemma_norm_times(e327, 14977085809008797054954445004098671878320683166570866920095243904163412059629nat);
    let e329: nat = lemma_square(twist_constant_norm(), e328, 6715492522512504911186240417033856995001415371802395754535962379704024469509nat);
    let e330: nat = lemma_norm_times(e329, 16799960468172090617986736614149665625094596427602883783671854131444521700954nat);
    let e331: nat = lemma_square(twist_constant_norm(), e330, 18393545149604681455379972996747537147866129995132817330972768739646399027326nat);
    let e332: nat = lemma_norm_times(e331, 20033623092111728398471124198175020587031066901052369297761723984683908139337nat);
    let e333: nat = lemma_square(twist_constant_norm(), e332, 5135039992917531500377446109529331844621207619996919316700426008576251970103nat);
    let e334: nat = lemma_norm_times(e333, 8959074090383570581523154762620471876091737634851408544997019345480780464320nat);
    let e335: nat = lemma_square(twist_constant_norm(), e334, 19134538806079546955444682726110718938002131675730666902046679889575639101982nat);
    let e336: nat = lemma_norm_times(e335, 2679690629297668950690981667373838919108594739113446081320836814451333317588nat);
    let e337: nat = lemma_square(twist_constant_norm(), e336, 10437444448702091207336368943001719556615087519869979437976475260080251168103nat);
    let e338: nat = lemma_square(twist_constant_norm(), e337, 4372359185271363769058071922622167239401477255784333411162531041050270295008nat);
    let e339: nat = lemma_square(twist_constant_norm(), e338, 6873519186078548130556241947909442359874559343223175569945797208880763032128nat);
    let e340: nat = lemma_norm_times(e339, 16442636384307593923973398982105672976109272127393522322644311452731344431319nat);
    let e341: nat = lemma_square(twist_constant_norm(), e340, 7944064798915508236919852719266687607621934216638922501776178959163686618040nat);
    let e342: nat = lemma_norm_times(e341, 1608718822429505092159554220246890711597920680348281622290656358078577992738nat);
    let e343: nat = lemma_square(twist_constant_norm(), e342, 3913583775702626816352264248973461800562556613723220315588566313996833766522nat);
    let e344: nat = lemma_norm_times(e343, 5446946828551426021485626652469220407616911743229764975292784766665790166633nat);
    let e345: nat = lemma_square(twist_constant_norm(), e344, 8872659152243663001012307536282908675830949409332931930743844361390172243485nat);
    let e346: nat = lemma_norm_times(e345, 1506499885068071962995746192057237888088018199929609048474463835770017779230nat);
    let e347: nat = lemma_square(twist_constant_norm(), e346, 4436224206280988429547612288446726126974794418489410488284082693125046089639nat);
    let e348: nat = lemma_norm_times(e347, 7438497884466289684245453764550398858746718514467442224170406840161956396056nat);
    let e349: nat = lemma_square(twist_constant_norm(), e348, 15230629219994115477555060903961542006320991086881578753691972047223168571073nat);
    let e350: nat = lemma_norm_times(e349, 14640334816607227454919096035514307003447247929122474370551676193511738550769nat);
    let e351: nat = lemma_square(twist_constant_norm(), e350, 1339936225336899656975920226516725462711328295180542020393610339597078301809nat);
    let e352: nat = lemma_square(twist_constant_norm(), e351, 19833711707665975488863299197494654529657578416375055290795105031464782045215nat);
    let e353: nat = lemma_norm_times(e352, 4413815801617099016507711433512425660891784867972097501773318783329024859687nat);
    let e354: nat = lemma_square(twist_constant_norm(), e353, 4488390064538329505881286452200865332664277209405076005564578505727312400804nat);
    let e355: nat = lemma_square(twist_constant_norm(), e354, 7779684145615223600231446155458063699275996686123022919589760636250778843402nat);
    let e356: nat = lemma_norm_times(e355, 1446371127372819256791634428219772250358208085975578536079495038428544489024nat);
    let e357: nat = lemma_square(twist_constant_norm(), e356, 9234360948645008913018323234057625649620712830754953797026131021509690140159nat);
    let e358: nat = lemma_square(twist_constant_norm(), e357, 21215838740205808483928055359798172005642069221488613826259820005322395240212nat);
    let e359: nat = lemma_square(twist_constant_norm(), e358, 8401534795430140917200606623857185487158030857091807203842756400927003783074nat);
    let e360: nat = lemma_norm_times(e359, 9173442066037769902365214357717866298679523124474350594249446810105142741886nat);
    let e361: nat = lemma_square(twist_constant_norm(), e360, 14887190340609539520464634487473647576833218149997024217171646241615829847845nat);
}

/// Three has no square root in the base field of BN254.
pub proof fn lemma_three_has_no_root()
    ensures
        bn254_fq_root(3) is None,
{
    reveal(bn254_fq_root);
    reveal(power_of);
    lemma_three_to_252_digits();
    assert(squared(4407920970296243842837207485651524041948558517760411303933nat) == 21888242871839275222246405745257275088696311157297823662689037894645226208580nat);
}

/// The norm of `3 / (9 + u)` has no square root in the base field of
/// BN254.
pub proof fn lemma_twist_constant_norm_has_no_root()
    ensures
        bn254_fq_root(twist_constant_norm()) is None,
{
    reveal(bn254_fq_root);
    reveal(power_of);
    lemma_norm_to_252_digits();
    assert(squared(13423547325255664688601927060176767110617459601565462561454799232085773828921nat) == 800789373359973483740722161411851527635230895998700865708135532730922910070nat);
}

} // verus!
